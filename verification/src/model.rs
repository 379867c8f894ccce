//! The mathematical model of descriptors and globals.
//!
//! The executable types of [`crate::global`] are described by the two views
//! below, and each operation by a function on views. The rules that relate
//! several operations are stated and proved at the end of this file.

use vstd::prelude::*;
use crate::types::GlobalError;
use crate::types::Mutability;
use crate::types::Ownership;
use crate::types::ValType;
use crate::types::Value;

verus! {

/// What a type descriptor is: the declared shape, and who releases the handle.
pub struct GlobalTypeView {
    pub value_type: ValType,
    pub mutability: Mutability,
    pub ownership: Ownership,
}

/// What a global is: its declared shape, its current value, and who releases it.
pub struct GlobalView {
    pub value_type: ValType,
    pub mutability: Mutability,
    pub value: Value,
    pub ownership: Ownership,
}

impl GlobalTypeView {
    /// A descriptor as its creator gets it: free-standing.
    pub open spec fn new(value_type: ValType, mutability: Mutability) -> GlobalTypeView {
        GlobalTypeView { value_type, mutability, ownership: Ownership::Owned }
    }

    /// The same shape, with the responsibility for release given away.
    pub open spec fn registered(self) -> GlobalTypeView {
        GlobalTypeView { ownership: Ownership::Registered, ..self }
    }

    /// Whether destroying the handle releases the descriptor.
    pub open spec fn released_by_destroy(self) -> bool {
        self.ownership is Owned
    }
}

impl GlobalView {
    /// The current value carries the declared tag.
    pub open spec fn wf(self) -> bool {
        self.value.spec_val_type() == self.value_type
    }

    /// The descriptor that a global hands out: its own shape, never releasable.
    pub open spec fn type_view(self) -> GlobalTypeView {
        GlobalTypeView {
            value_type: self.value_type,
            mutability: self.mutability,
            ownership: Ownership::Registered,
        }
    }

    /// The outcome of creating a global of shape `ty` with the initial value `val`.
    pub open spec fn create(ty: GlobalTypeView, val: Value) -> Result<GlobalView, GlobalError> {
        if val.spec_val_type() == ty.value_type {
            Ok(
                GlobalView {
                    value_type: ty.value_type,
                    mutability: ty.mutability,
                    value: val,
                    ownership: Ownership::Owned,
                },
            )
        } else {
            Err(GlobalError::TypeMismatchError)
        }
    }

    /// The descriptor handle after it was offered to [`GlobalView::create`]:
    /// given away where a global was made, untouched where none was.
    pub open spec fn type_after_create(ty: GlobalTypeView, val: Value) -> GlobalTypeView {
        if Self::create(ty, val) is Ok {
            ty.registered()
        } else {
            ty
        }
    }

    /// What a write of `val` answers: a constant global refuses every write,
    /// a writable one refuses a value of another type.
    pub open spec fn set_result(self, val: Value) -> Result<(), GlobalError> {
        if self.mutability is Const {
            Err(GlobalError::ImmutableGlobalError)
        } else if val.spec_val_type() != self.value_type {
            Err(GlobalError::TypeMismatchError)
        } else {
            Ok(())
        }
    }

    /// The global after a write of `val`: unchanged where the write is refused.
    pub open spec fn after_set(self, val: Value) -> GlobalView {
        if self.set_result(val) is Ok {
            GlobalView { value: val, ..self }
        } else {
            self
        }
    }

    /// The same global, with the responsibility for release given to a module
    /// instance.
    pub open spec fn registered(self) -> GlobalView {
        GlobalView { ownership: Ownership::Registered, ..self }
    }

    /// Whether destroying the creator's handle releases the global.
    pub open spec fn released_by_destroy(self) -> bool {
        self.ownership is Owned
    }

    /// Whether the teardown of the owning module instance releases the global.
    pub open spec fn released_by_teardown(self) -> bool {
        self.ownership is Registered
    }
}

/// A new descriptor reports the value type and the mutability that it was
/// made with, and is free-standing.
pub proof fn lemma_type_round_trip(value_type: ValType, mutability: Mutability)
    ensures
        GlobalTypeView::new(value_type, mutability).value_type == value_type,
        GlobalTypeView::new(value_type, mutability).mutability == mutability,
        GlobalTypeView::new(value_type, mutability).ownership is Owned,
        GlobalTypeView::new(value_type, mutability).released_by_destroy(),
{
}

/// A global is made exactly when the initial value has the declared type. It
/// then holds that value, has the shape of the descriptor, and is
/// free-standing.
pub proof fn lemma_create_holds_initial_value(ty: GlobalTypeView, val: Value)
    ensures
        GlobalView::create(ty, val) is Ok <==> val.spec_val_type() == ty.value_type,
        GlobalView::create(ty, val) matches Ok(made) ==> {
            &&& made.value == val
            &&& made.value_type == ty.value_type
            &&& made.mutability == ty.mutability
            &&& made.ownership is Owned
            &&& made.wf()
            &&& made.type_view() == ty.registered()
        },
{
}

/// An initial value of another type than the descriptor declares is refused
/// as a type mismatch, and the descriptor handle stays as it was.
pub proof fn lemma_create_refuses_mismatch(ty: GlobalTypeView, val: Value)
    requires
        val.spec_val_type() != ty.value_type,
    ensures
        GlobalView::create(ty, val) == Err::<GlobalView, GlobalError>(
            GlobalError::TypeMismatchError,
        ),
        GlobalView::type_after_create(ty, val) == ty,
{
}

/// On a writable global, after two writes the global holds the second value,
/// whatever the first one was, provided that the second has the declared type.
pub proof fn lemma_last_write_wins(g: GlobalView, first: Value, second: Value)
    requires
        g.mutability is Var,
        second.spec_val_type() == g.value_type,
    ensures
        g.after_set(first).set_result(second) is Ok,
        g.after_set(first).after_set(second).value == second,
        g.after_set(first).after_set(second) == g.after_set(second),
{
}

/// A write to a writable global succeeds exactly when the value has the
/// declared type, and the global then holds that value.
pub proof fn lemma_write_then_read(g: GlobalView, val: Value)
    requires
        g.mutability is Var,
    ensures
        g.set_result(val) is Ok <==> val.spec_val_type() == g.value_type,
        g.set_result(val) is Ok ==> g.after_set(val).value == val,
{
}

/// A constant global refuses every write as a write to an immutable global,
/// and keeps its value.
pub proof fn lemma_const_refuses_writes(g: GlobalView, val: Value)
    requires
        g.mutability is Const,
    ensures
        g.set_result(val) == Err::<(), GlobalError>(GlobalError::ImmutableGlobalError),
        g.after_set(val) == g,
{
}

/// A write of a value of another type than the global declares fails and
/// changes nothing. On a writable global the failure is a type mismatch; a
/// constant global refuses the write for being constant.
pub proof fn lemma_mismatch_refused(g: GlobalView, val: Value)
    requires
        val.spec_val_type() != g.value_type,
    ensures
        g.set_result(val) is Err,
        g.after_set(val) == g,
        g.mutability is Var ==> g.set_result(val) == Err::<(), GlobalError>(
            GlobalError::TypeMismatchError,
        ),
        g.mutability is Const ==> g.set_result(val) == Err::<(), GlobalError>(
            GlobalError::ImmutableGlobalError,
        ),
{
}

/// No write, accepted or refused, changes the shape of a global or who
/// releases it, and the value keeps carrying the declared type.
pub proof fn lemma_write_keeps_shape(g: GlobalView, val: Value)
    requires
        g.wf(),
    ensures
        g.after_set(val).value_type == g.value_type,
        g.after_set(val).mutability == g.mutability,
        g.after_set(val).ownership == g.ownership,
        g.after_set(val).type_view() == g.type_view(),
        g.after_set(val).wf(),
{
}

/// Handing a global to a module instance changes neither its shape nor its
/// value, and does not stand in the way of reading or writing it.
pub proof fn lemma_register_keeps_contents(g: GlobalView, val: Value)
    ensures
        g.registered().value_type == g.value_type,
        g.registered().mutability == g.mutability,
        g.registered().value == g.value,
        g.registered().wf() == g.wf(),
        g.registered().set_result(val) == g.set_result(val),
        g.registered().after_set(val) == g.after_set(val).registered(),
{
}

/// What is registered stays registered: no operation gives the
/// responsibility for release back.
pub proof fn lemma_registered_is_permanent(g: GlobalView, ty: GlobalTypeView, val: Value)
    ensures
        g.registered().ownership is Registered,
        g.registered().registered() == g.registered(),
        g.ownership is Registered ==> g.after_set(val).ownership is Registered,
        g.ownership is Registered ==> g.registered() == g,
        ty.registered().ownership is Registered,
        ty.ownership is Registered ==> GlobalView::type_after_create(ty, val).ownership
            is Registered,
        g.type_view().ownership is Registered,
{
}

/// A global is released exactly once: by its creator's handle while it is
/// free-standing, by the teardown of the module instance once it was handed
/// over, and never by both.
pub proof fn lemma_released_by_one_owner(g: GlobalView)
    ensures
        g.released_by_destroy() != g.released_by_teardown(),
        g.released_by_destroy() <==> g.ownership is Owned,
        !g.registered().released_by_destroy(),
        g.registered().released_by_teardown(),
{
}

/// Once a global was made from a descriptor, destroying the descriptor handle
/// releases nothing, and the global does not depend on that handle: it is
/// free-standing, holds the initial value and takes writes as its declared
/// shape says.
pub proof fn lemma_type_handle_given_away(ty: GlobalTypeView, val: Value, next: Value)
    requires
        val.spec_val_type() == ty.value_type,
    ensures
        !GlobalView::type_after_create(ty, val).released_by_destroy(),
        GlobalView::type_after_create(ty, val).value_type == ty.value_type,
        GlobalView::type_after_create(ty, val).mutability == ty.mutability,
        GlobalView::create(ty, val) matches Ok(made) && {
            &&& made.released_by_destroy()
            &&& made.value == val
            &&& (ty.mutability is Var && next.spec_val_type() == ty.value_type
                ==> made.after_set(next).value == next)
        },
{
}

} // verus!
