//! Putting a routine of one's own in place of the routine that decodes a
//! field, and putting the original back.

use vstd::prelude::*;
use vstd::string::*;
use crate::definitions::recv_props::RecvVarProxyFn;
use crate::netvar::NetVars;

verus! {

/// A replaced decoding routine: which descriptor it belongs to, and the
/// routine that was there before.
pub struct RecvProxyHook {
    property: usize,
    original: RecvVarProxyFn,
}

impl RecvProxyHook {
    /// The address of the descriptor whose routine was replaced.
    pub closed spec fn spec_property(&self) -> usize {
        self.property
    }

    /// The routine that the descriptor had before it was replaced.
    pub closed spec fn spec_original(&self) -> RecvVarProxyFn {
        self.original
    }

    /// Replaces the routine of the descriptor at `property`. `live` is the
    /// word of that descriptor which holds its routine: it is read for the
    /// original and then holds `proxy_fn`.
    pub fn hook(property: usize, live: &mut RecvVarProxyFn, proxy_fn: RecvVarProxyFn) -> (installed:
        Self)
        ensures
            installed.spec_property() == property,
            installed.spec_original() == *old(live),
            *final(live) == proxy_fn,
    {
        let original = *live;
        *live = proxy_fn;
        Self { property, original }
    }

    /// Puts the original routine back into `live`, the word of the
    /// descriptor which holds its routine.
    pub fn reset(&mut self, live: &mut RecvVarProxyFn)
        ensures
            *final(live) == old(self).spec_original(),
            *final(self) == *old(self),
    {
        *live = self.original;
    }

    /// The routine that the descriptor had before it was replaced, for a
    /// replacement that hands on to it.
    #[verifier::when_used_as_spec(spec_original)]
    pub fn get_original(&self) -> (original: RecvVarProxyFn)
        ensures
            original == self.spec_original(),
    {
        self.original
    }

    /// The address of the descriptor whose routine was replaced.
    #[verifier::when_used_as_spec(spec_property)]
    pub fn get_property(&self) -> (property: usize)
        ensures
            property == self.spec_property(),
    {
        self.property
    }
}

/// The address of the descriptor of the field with the key `name`, such as
/// `"CBaseViewModel->m_nSequence"`, if a discovery pass has stored it.
pub fn find_prop(netvars: &NetVars, name: &str) -> (property: Option<usize>)
    ensures
        property == netvars.props.spec_get(name@),
{
    netvars.props.get(&String::from_str(name))
}

/// Replaces the routine that decodes the field with the key `name` by
/// `hook`. `live` is the word which holds the routine of the descriptor that
/// [`find_prop`] names for this key. Where no field has the key, nothing is
/// replaced and there is no handle.
pub fn hook_netvar(
    netvars: &NetVars,
    name: &str,
    live: &mut RecvVarProxyFn,
    hook: RecvVarProxyFn,
) -> (installed: Option<RecvProxyHook>)
    ensures
        netvars.props.spec_get(name@) is None ==> installed is None && *final(live) == *old(live),
        netvars.props.spec_get(name@) is Some ==> {
            &&& installed is Some
            &&& installed->0.spec_property() == netvars.props.spec_get(name@)->0
            &&& installed->0.spec_original() == *old(live)
            &&& *final(live) == hook
        },
{
    match find_prop(netvars, name) {
        Some(property) => Some(RecvProxyHook::hook(property, live, hook)),
        None => None,
    }
}

} // verus!
