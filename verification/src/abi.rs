//! Function-call ABI: link hints and function identifiers, the routing
//! vocabulary shared by every layer of the fabric.

use vstd::prelude::*;

verus! {

/// Routing tag of a call destination.
#[derive(Debug)]
pub enum LinkHint {
    /// The destination is a function implemented on the host.
    Host,
    /// The destination is the named guest module of this fabric.
    GuestModule(String),
    /// The destination is the named native module.
    NativeModule(String),
}

/// Mathematical value of a [`LinkHint`]: the same three-way tag over
/// character sequences.
pub enum LinkHintV {
    Host,
    GuestModule(Seq<char>),
    NativeModule(Seq<char>),
}

impl View for LinkHint {
    type V = LinkHintV;

    open spec fn view(&self) -> LinkHintV {
        match self {
            LinkHint::Host => LinkHintV::Host,
            LinkHint::GuestModule(n) => LinkHintV::GuestModule(n@),
            LinkHint::NativeModule(n) => LinkHintV::NativeModule(n@),
        }
    }
}

impl PartialEq for LinkHint {
    fn eq(&self, other: &LinkHint) -> (r: bool) {
        match (self, other) {
            (LinkHint::Host, LinkHint::Host) => true,
            (LinkHint::GuestModule(a), LinkHint::GuestModule(b)) => a.eq(b),
            (LinkHint::NativeModule(a), LinkHint::NativeModule(b)) => a.eq(b),
            _ => false,
        }
    }
}

impl vstd::std_specs::cmp::PartialEqSpecImpl for LinkHint {
    open spec fn obeys_eq_spec() -> bool {
        true
    }

    open spec fn eq_spec(&self, other: &LinkHint) -> bool {
        self@ == other@
    }
}

impl Clone for LinkHint {
    fn clone(&self) -> (r: Self)
        ensures
            r@ == self@,
    {
        match self {
            LinkHint::Host => LinkHint::Host,
            LinkHint::GuestModule(n) => LinkHint::GuestModule(n.clone()),
            LinkHint::NativeModule(n) => LinkHint::NativeModule(n.clone()),
        }
    }
}

/// Identifier of a callable endpoint: a function name plus the link hint
/// that routes the call.
#[derive(Debug)]
pub struct FunctionIdent {
    pub name: String,
    pub hint: LinkHint,
}

/// Mathematical value of a [`FunctionIdent`].
pub struct FunctionIdentV {
    pub name: Seq<char>,
    pub hint: LinkHintV,
}

impl View for FunctionIdent {
    type V = FunctionIdentV;

    open spec fn view(&self) -> FunctionIdentV {
        FunctionIdentV { name: self.name@, hint: self.hint@ }
    }
}

impl PartialEq for FunctionIdent {
    fn eq(&self, other: &FunctionIdent) -> (r: bool) {
        self.name.eq(&other.name) && self.hint == other.hint
    }
}

impl vstd::std_specs::cmp::PartialEqSpecImpl for FunctionIdent {
    open spec fn obeys_eq_spec() -> bool {
        true
    }

    open spec fn eq_spec(&self, other: &FunctionIdent) -> bool {
        self@ == other@
    }
}

impl Clone for FunctionIdent {
    fn clone(&self) -> (r: Self)
        ensures
            r@ == self@,
    {
        FunctionIdent { name: self.name.clone(), hint: self.hint.clone() }
    }
}

impl FunctionIdent {
    /// A fresh identifier for `name`, initially hinted at the host.
    pub fn new(name: &str) -> (r: Self)
        ensures
            r@.name == name@,
            r@.hint == LinkHintV::Host,
    {
        FunctionIdent { name: name.to_owned(), hint: LinkHint::Host }
    }

    /// Replace the link hint.
    pub fn set_hint(&mut self, hint: LinkHint)
        ensures
            final(self)@.name == old(self)@.name,
            final(self)@.hint == hint@,
    {
        self.hint = hint;
    }
}

} // verus!
