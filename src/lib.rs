//! A registry of typed, immutable resources under string identifiers, and a pointer
//! that either borrows a registered resource or owns an orphan one.
pub mod err;
pub mod id;
pub mod ptr;
pub mod tab;

use vstd::prelude::*;

pub use err::{InvalidIdError, ResNotFoundError};
pub use id::{id, Id};
pub use ptr::RegPtr;
pub use tab::{Registry, RegistryBuilder};

use id::id_string;

verus! {

/// A type whose values can be registered.
pub trait Register: 'static + Sized {

}

impl<T: 'static + Sized> Register for T {

}

/// A type that has one process-wide frozen registry.
pub trait HasRegTab: Register {
    /// The registry of this type.
    fn reg_tab() -> &'static Registry<Self>;
}

/// An entry found in a frozen registry: its identifier and a reference to its resource.
///
/// Only a successful lookup makes one, so its identifier stays registered for as long
/// as it lives.
pub struct Resolved<T: Register> {
    id: Id<T>,
    value: &'static T,
}

impl<T: Register> Resolved<T> {
    /// The identifier of the entry.
    pub closed spec fn key(&self) -> (Seq<char>, Seq<char>) {
        self.id@
    }

    /// The resource of the entry.
    pub closed spec fn target(&self) -> T {
        *self.value
    }

    /// The identifier of the entry.
    pub fn id(&self) -> (r: &Id<T>)
        ensures
            r@ == self.key(),
    {
        &self.id
    }

    /// The resource of the entry, borrowed from the registry.
    pub fn value(&self) -> (r: &'static T)
        ensures
            *r == self.target(),
    {
        self.value
    }
}

/// A pointer to either a registered resource or an orphan.
///
/// It either refers to an entry of a registry or owns its `T`.
pub enum Rp<T: Register> {
    /// The resource found in a registry under the identifier.
    Registered(Resolved<T>),
    /// A resource that no registry holds.
    Orphan(Box<T>),
}

/// The resource that a pointer leads to.
pub open spec fn rp_value<T: Register>(rp: Rp<T>) -> T {
    match rp {
        Rp::Registered(e) => e.target(),
        Rp::Orphan(b) => *b,
    }
}

/// `p` is the portable form of `rp`: the same identifier, or the same resource.
pub open spec fn encodes_to<T: Register>(rp: Rp<T>, p: RegPtr<T>) -> bool {
    match rp {
        Rp::Registered(e) => p matches RegPtr::Registered(pid) && pid@ == e.key(),
        Rp::Orphan(b) => p matches RegPtr::Orphan(pb) && *pb == *b,
    }
}

/// `r` is what reading `p` against a registry with entries `tab` gives: an orphan is
/// taken as it is; an identifier resolves to its entry, or fails where `tab` lacks it.
pub open spec fn decodes_to<T: Register>(
    p: RegPtr<T>,
    tab: Map<Seq<char>, T>,
    r: Result<Rp<T>, ResNotFoundError<T>>,
) -> bool {
    match p {
        RegPtr::Registered(id) => if tab.contains_key(id_string(id@)) {
            r matches Ok(Rp::Registered(re)) && re.key() == id@ && re.target() == tab[id_string(
                id@,
            )]
        } else {
            r matches Err(e) && e.id() == id@
        },
        RegPtr::Orphan(b) => r matches Ok(Rp::Orphan(rb)) && *rb == *b,
    }
}

impl<T: Register> Rp<T> {
    /// A pointer that owns `value`.
    pub fn orphan(value: T) -> (r: Self)
        ensures
            r matches Rp::Orphan(b) && *b == value,
    {
        Rp::Orphan(Box::new(value))
    }

    /// A pointer to the resource registered under `id` in `tab`, or an error that
    /// names `id` where `tab` lacks it.
    pub fn registered(tab: &'static Registry<T>, id: Id<T>) -> (r: Result<Self, ResNotFoundError<T>>)
        ensures
            decodes_to(RegPtr::Registered(id), tab@, r),
    {
        match tab.get(&id) {
            Some(v) => Ok(Rp::Registered(Resolved { id, value: v })),
            None => Err(ResNotFoundError::new(id)),
        }
    }

    /// The resource that the pointer leads to.
    pub fn value(&self) -> (r: &T)
        ensures
            *r == rp_value(*self),
    {
        match self {
            Rp::Registered(e) => e.value,
            Rp::Orphan(b) => b,
        }
    }

    /// The portable form of the pointer, consuming it.
    pub fn into_reg_ptr(self) -> (r: RegPtr<T>)
        ensures
            encodes_to(self, r),
    {
        match self {
            Rp::Registered(e) => RegPtr::Registered(e.id),
            Rp::Orphan(b) => RegPtr::Orphan(b),
        }
    }

    /// The portable form of the pointer; an orphan's resource is cloned.
    pub fn to_reg_ptr(&self) -> (r: RegPtr<T>)
        where
            T: Clone,
        ensures
            match *self {
                Rp::Registered(e) => r matches RegPtr::Registered(pid) && pid@ == e.key(),
                Rp::Orphan(b) => r matches RegPtr::Orphan(pb) && cloned(*b, *pb),
            },
    {
        match self {
            Rp::Registered(e) => RegPtr::Registered(e.id.clone()),
            Rp::Orphan(b) => RegPtr::Orphan(Box::new(T::clone(b))),
        }
    }

    /// Reads a portable pointer against `tab`: an orphan is taken as it is, and an
    /// identifier must be registered in `tab`.
    pub fn from_reg_ptr(p: RegPtr<T>, tab: &'static Registry<T>) -> (r: Result<
        Self,
        ResNotFoundError<T>,
    >)
        ensures
            decodes_to(p, tab@, r),
    {
        match p {
            RegPtr::Registered(id) => Rp::registered(tab, id),
            RegPtr::Orphan(b) => Ok(Rp::Orphan(b)),
        }
    }
}

/// Writing a registered pointer out and reading it back against a registry that holds
/// its identifier gives a registered pointer, under the same identifier, to that
/// registry's entry (the same resource where the pointer came from those entries);
/// against a registry that lacks the identifier it gives an error that names it.
pub proof fn lemma_registered_round_trip<T: Register>(
    rp: Rp<T>,
    p: RegPtr<T>,
    tab: Map<Seq<char>, T>,
    r: Result<Rp<T>, ResNotFoundError<T>>,
)
    requires
        rp is Registered,
        encodes_to(rp, p),
        decodes_to(p, tab, r),
    ensures
        ({
            let k = id_string(rp->Registered_0.key());
            &&& tab.contains_key(k) ==> (r matches Ok(Rp::Registered(be)) && be.key()
                == rp->Registered_0.key() && be.target() == tab[k])
            &&& tab.contains_key(k) && rp_value(rp) == tab[k] ==> (r matches Ok(back)
                && rp_value(back) == rp_value(rp))
            &&& !tab.contains_key(k) ==> (r matches Err(e) && e.id() == rp->Registered_0.key())
        }),
{
}

/// Writing an orphan out and reading it back gives an orphan with the same resource,
/// whatever registry it is read against.
pub proof fn lemma_orphan_round_trip<T: Register>(
    rp: Rp<T>,
    p: RegPtr<T>,
    tab1: Map<Seq<char>, T>,
    r1: Result<Rp<T>, ResNotFoundError<T>>,
    tab2: Map<Seq<char>, T>,
    r2: Result<Rp<T>, ResNotFoundError<T>>,
)
    requires
        rp is Orphan,
        encodes_to(rp, p),
        decodes_to(p, tab1, r1),
        decodes_to(p, tab2, r2),
    ensures
        r1 matches Ok(a) && a is Orphan && rp_value(a) == rp_value(rp),
        r2 matches Ok(b) && b is Orphan && rp_value(b) == rp_value(rp),
{
}

impl<T: HasRegTab> Rp<T> {
    /// Reads a portable pointer against the registry of `T`. An orphan is taken as it
    /// is, without reaching the registry.
    pub fn resolve(p: RegPtr<T>) -> (r: Result<Self, ResNotFoundError<T>>)
        ensures
            p matches RegPtr::Orphan(b) ==> r matches Ok(Rp::Orphan(rb)) && *rb == *b,
            p matches RegPtr::Registered(id) ==> match r {
                Ok(rp) => rp matches Rp::Registered(re) && re.key() == id@,
                Err(e) => e.id() == id@,
            },
    {
        match p {
            RegPtr::Registered(id) => Rp::registered(T::reg_tab(), id),
            RegPtr::Orphan(b) => Ok(Rp::Orphan(b)),
        }
    }
}

impl<T: Register + Clone> Clone for Rp<T> {
    /// A registered pointer is copied as a reference; an orphan's resource is cloned.
    fn clone(&self) -> (r: Self)
        ensures
            match *self {
                Rp::Registered(e) => r matches Rp::Registered(re) && re.key() == e.key()
                    && re.target() == e.target(),
                Rp::Orphan(b) => r matches Rp::Orphan(rb) && cloned(*b, *rb),
            },
    {
        match self {
            Rp::Registered(e) => Rp::Registered(Resolved { id: e.id.clone(), value: e.value }),
            Rp::Orphan(b) => Rp::Orphan(Box::new(T::clone(b))),
        }
    }
}

impl<T: Register> core::ops::Deref for Rp<T> {
    type Target = T;

    fn deref(&self) -> (r: &T)
        ensures
            *r == rp_value(*self),
    {
        self.value()
    }
}

} // verus!
