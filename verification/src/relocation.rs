//! A resolved absolute address, typed by what it points at.

use crate::module_state::ModuleStateError;
use crate::runtime::Runtime;
use core::marker::PhantomData;
use vstd::prelude::*;

verus! {

/// Types whose size the raw write helpers accept.
pub trait MeetsLengthReq {

}

impl MeetsLengthReq for u8 {

}

impl MeetsLengthReq for u16 {

}

impl MeetsLengthReq for u32 {

}

impl MeetsLengthReq for u64 {

}

/// Marker for plain function pointers.
pub trait MeetsFunctionReq {

}

/// Marker for member function pointers.
pub trait MeetsMemberReq {

}

/// Marker for types passed in registers by the 64-bit calling convention.
pub trait IsX64Pod {

}

/// Marker carrying a member function type whose receiver is plain data.
pub struct MemberFunctionPodType<F> {
    /// Carries the function type.
    pub _marker: PhantomData<F>,
}

/// Marker carrying a member function type whose receiver is not plain
/// data.
pub struct MemberFunctionNonPodType<F> {
    /// Carries the function type.
    pub _marker: PhantomData<F>,
}

/// Calls the function on the arguments.
pub fn invoke<F: FnOnce(Args) -> R, Args, R>(func: F, args: Args) -> (r: R)
    requires
        call_requires(func, (args,)),
    ensures
        call_ensures(func, (args,), r),
{
    func(args)
}

/// An absolute address inside the module image, typed by what it points
/// at.
#[derive(Debug)]
pub struct Relocation<T> {
    /// The absolute address.
    pub addr: usize,
    /// Carries the pointed-at type.
    pub _marker: PhantomData<T>,
}

impl<T> Relocation<T> {
    /// A relocation of the given absolute address.
    pub fn new(address: usize) -> (r: Self)
        ensures
            r.addr == address,
    {
        Relocation { addr: address, _marker: PhantomData }
    }

    /// A relocation of a resolved address plus an extra offset.
    pub fn from_addresses(address: usize, offset: usize) -> (r: Self)
        requires
            address + offset <= usize::MAX,
        ensures
            r.addr == address + offset,
    {
        Relocation { addr: address + offset, _marker: PhantomData }
    }

    /// The absolute address.
    pub fn address(&self) -> (r: usize)
        ensures
            r == self.addr,
    {
        self.addr
    }

    /// The address's offset from the module base.
    pub fn offset(&self, base: usize) -> (r: Result<usize, ModuleStateError>)
        requires
            base <= self.addr,
        ensures
            r == Ok::<usize, ModuleStateError>((self.addr - base) as usize),
    {
        Ok(self.addr - base)
    }
}

/// Picks the value for the running flavor: the second for the
/// anniversary edition, the first for every other flavor.
pub fn relocate<T>(se_and_vr: T, ae: T, runtime: Runtime) -> (r: T)
    ensures
        r == (if runtime == Runtime::Ae {
            ae
        } else {
            se_and_vr
        }),
{
    if matches!(runtime, Runtime::Ae) {
        ae
    } else {
        se_and_vr
    }
}

} // verus!
