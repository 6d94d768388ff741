use sdk::classes::entity::{CEntity, ESolidType};
use sdk::definitions::frame_stage::FrameStage;
use sdk::interface::Interface;
use sdk::interfaces::client_mode::EButtons;
use sdk::interfaces::game_events::{GameEventTrait, IGameEvent, EVENT_DEBUG_ID};
use sdk::interfaces::glow::{GlowObjectDef, IGlowObjectManager, TAKEN_MARK};
use sdk::interfaces::material::MaterialVarFlags;
use sdk::interfaces::model_render::OverrideType;
use sdk::interfaces::surface::{
    rectangle_fade, Alphas, Corners, EFontFlags, GradientType,
};
use sdk::interfaces::view_render_beams::{EBeamType, MAX_BEAM_ENTS, NOISE_DIVISIONS, TE_BEAMTESLA};

#[test]
fn numbers_of_the_plain_enums() {
    assert_eq!(ESolidType::SolidNone.number(), 0);
    assert_eq!(ESolidType::SolidVphysics.number(), 6);
    assert_eq!(ESolidType::SolidLast.number(), 7);
    assert_eq!(FrameStage::UNDEFINED.number(), -1);
    assert_eq!(FrameStage::START.number(), 0);
    assert_eq!(FrameStage::RenderStart.number(), 5);
    assert_eq!(FrameStage::RenderEnd.number(), 6);
    assert_eq!(OverrideType::Normal.number(), 0);
    assert_eq!(OverrideType::SsaoDepthWrite.number(), 4);
}

#[test]
fn bits_of_the_flag_enums() {
    assert_eq!(EButtons::InAttack.number(), 1 << 0);
    assert_eq!(EButtons::InJump.number(), 1 << 1);
    assert_eq!(EButtons::InUse.number(), 1 << 5);
    assert_eq!(EButtons::InMoveleft.number(), 1 << 9);
    assert_eq!(EButtons::InAttack2.number(), 1 << 11);
    assert_eq!(EButtons::InScore.number(), 1 << 16);
    assert_eq!(EButtons::InBullrush.number(), 1 << 22);
    assert_eq!(MaterialVarFlags::MaterialVarDebug.number(), 1);
    assert_eq!(MaterialVarFlags::MaterialVarIgnorez.number(), 1 << 15);
    assert_eq!(MaterialVarFlags::MaterialVarWireframe.number(), 1 << 28);
    assert_eq!(MaterialVarFlags::MaterialVarVertexfog.number(), 1 << 31);
    assert_eq!(EFontFlags::FontflagNone.number(), 0);
    assert_eq!(EFontFlags::FontflagItalic.number(), 0x001);
    assert_eq!(EFontFlags::FontflagOutline.number(), 0x200);
    assert_eq!(EFontFlags::FontflagBitmap.number(), 0x800);
    assert_eq!(EBeamType::FbeamStartEntity.number(), 0x1);
    assert_eq!(EBeamType::FbeamHaloBeam.number(), 0x8000);
    assert_eq!(EBeamType::FbeamReversed.number(), 0x10000);
    assert_eq!((TE_BEAMTESLA, MAX_BEAM_ENTS, NOISE_DIVISIONS), (9, 10, 128));
}

struct Counter(std::cell::Cell<usize>);

impl GameEventTrait for Counter {
    fn fire_game_event(&self, event: &mut IGameEvent) {
        self.0.set(self.0.get() + event.as_ptr());
    }
}

#[test]
fn listener_is_told_of_an_event() {
    let counter = Counter(std::cell::Cell::new(0));
    let mut event = IGameEvent::from_raw_unchecked(0x40);
    counter.fire_game_event(&mut event);
    counter.fire_game_event(&mut event);
    assert_eq!(counter.0.get(), 0x80);
    assert_eq!(EVENT_DEBUG_ID, 42);
}

#[test]
fn fade_is_planned_from_the_corner_and_the_size() {
    let plan = rectangle_fade([10, 20], [100, 30], GradientType::GradientHorizontal);
    assert_eq!(plan.fill, Corners { x0: 10, y0: 20, x1: 40, y1: 50 });
    assert_eq!(plan.fade, Corners { x0: 10, y0: 20, x1: 110, y1: 50 });
    assert_eq!(plan.first_alpha, Alphas { from: 255, to: 0 });
    assert_eq!(plan.second_alpha, Alphas { from: 0, to: 255 });
    assert!(plan.horizontal);
    let upright = rectangle_fade([-5, -5], [5, 5], GradientType::GradientVertical);
    assert_eq!(upright.fill, Corners { x0: -5, y0: -5, x1: 0, y1: 0 });
    assert_eq!(upright.fade, Corners { x0: -5, y0: -5, x1: 0, y1: 0 });
    assert!(!upright.horizontal);
    let wide = rectangle_fade([0, 0], [i32::MAX, 0], GradientType::GradientVertical);
    assert_eq!(wide.fade.x1, i32::MAX);
    assert_eq!(wide.fill.x1, 0);
}

fn free(next_free_slot: i32) -> GlowObjectDef {
    GlowObjectDef {
        next_free_slot,
        entity: 0,
        render_when_occluded: true,
        render_when_unoccluded: true,
        full_bloom_render: true,
        full_bloom_stencil_test: 9,
        glow_style: 3,
        split_screen_slot: 5,
    }
}

fn manager() -> IGlowObjectManager {
    IGlowObjectManager { glow_objects: vec![free(-1), free(0), free(1)], first_free_slot: 2 }
}

#[test]
fn slot_is_taken_from_the_head_of_the_free_list() {
    let mut slots = manager();
    let entity = CEntity::from_raw_unchecked(0x7000);
    assert_eq!(slots.register_glow_effect(&entity), 2);
    assert_eq!(slots.first_free_slot, 1);
    assert_eq!(
        slots.glow_objects[2],
        GlowObjectDef {
            next_free_slot: TAKEN_MARK,
            entity: 0x7000,
            render_when_occluded: true,
            render_when_unoccluded: true,
            full_bloom_render: false,
            full_bloom_stencil_test: 0,
            glow_style: 3,
            split_screen_slot: -1,
        }
    );
    assert_eq!(slots.glow_objects[0], free(-1));
    assert_eq!(slots.glow_objects[1], free(0));
    assert_eq!(slots.register_glow_effect(&entity), 1);
    assert_eq!(slots.register_glow_effect(&entity), 0);
    assert_eq!(slots.first_free_slot, -1);
    assert_eq!(slots.register_glow_effect(&entity), -1);
    assert_eq!(slots.first_free_slot, -1);
    assert_eq!(slots.glow_objects.len(), 3);
}

#[test]
fn head_that_names_no_slot_changes_nothing() {
    for head in [-1, -2, 3, i32::MAX, i32::MIN] {
        let mut slots = manager();
        slots.first_free_slot = head;
        assert_eq!(slots.register_glow_effect(&CEntity::from_raw_unchecked(0x7000)), head);
        assert_eq!(slots.first_free_slot, head);
        assert_eq!(slots.glow_objects, manager().glow_objects);
    }
}

#[test]
fn slot_that_is_given_back_heads_the_free_list() {
    let mut slots = manager();
    let entity = CEntity::from_raw_unchecked(0x7000);
    let index = slots.register_glow_effect(&entity);
    slots.unregister_glow_effect(index);
    assert_eq!(slots.first_free_slot, 2);
    assert_eq!(
        slots.glow_objects[2],
        GlowObjectDef {
            next_free_slot: 1,
            entity: 0,
            render_when_occluded: false,
            render_when_unoccluded: false,
            full_bloom_render: false,
            full_bloom_stencil_test: 0,
            glow_style: 3,
            split_screen_slot: -1,
        }
    );
    slots.unregister_glow_effect(7);
    slots.unregister_glow_effect(-1);
    assert_eq!(slots.first_free_slot, 2);
    slots.unregister_glow_effect(0);
    assert_eq!(slots.first_free_slot, 0);
    assert_eq!(slots.glow_objects[0].next_free_slot, 2);
}

#[test]
fn slot_is_looked_for_by_its_mark_and_its_object() {
    let mut slots = manager();
    let entity = CEntity::from_raw_unchecked(0x7000);
    assert!(!slots.has_glow_effect(&entity));
    slots.register_glow_effect(&entity);
    assert!(slots.glow_objects[2].is_unused());
    assert!(!slots.glow_objects[1].is_unused());
    assert!(!slots.has_glow_effect(&entity));
    slots.glow_objects[1].entity = 0x7000;
    assert!(slots.has_glow_effect(&entity));
    assert!(slots.has_glow_effect(&CEntity::from_raw_unchecked(0)));
    assert!(!slots.has_glow_effect(&CEntity::from_raw_unchecked(0x8000)));
}
