//! Type descriptors and the storage cells built from them.

use vstd::prelude::*;
use crate::model::GlobalTypeView;
use crate::model::GlobalView;
use crate::types::GlobalError;
use crate::types::Mutability;
use crate::types::Ownership;
use crate::types::ValType;
use crate::types::Value;

verus! {

/// The declared shape of a global: a value type and a mutability.
///
/// A descriptor cannot be cloned, so a handle that releases something never
/// has a second copy that would release it again. Destroying takes the handle
/// by value: nothing can be asked of a descriptor that was destroyed.
#[derive(Debug)]
pub struct GlobalType {
    value_type: ValType,
    mutability: Mutability,
    ownership: Ownership,
}

impl View for GlobalType {
    type V = GlobalTypeView;

    closed spec fn view(&self) -> GlobalTypeView {
        GlobalTypeView {
            value_type: self.value_type,
            mutability: self.mutability,
            ownership: self.ownership,
        }
    }
}

impl GlobalType {
    /// Makes a free-standing descriptor of the given shape.
    ///
    /// Nothing here can fail: the answer is always `Ok`.
    pub fn create(val_ty: ValType, mutable: Mutability) -> (res: Result<GlobalType, GlobalError>)
        ensures
            res is Ok,
            res->Ok_0@ == GlobalTypeView::new(val_ty, mutable),
    {
        Ok(GlobalType { value_type: val_ty, mutability: mutable, ownership: Ownership::Owned })
    }

    /// The descriptor of an existing global. It stands for state that the
    /// global owns, so it is registered from the start and never releases
    /// anything.
    pub fn from_global(global: &Global) -> (ty: GlobalType)
        ensures
            ty@ == global@.type_view(),
            global@.wf(),
    {
        proof {
            use_type_invariant(global);
        }
        GlobalType {
            value_type: global.value_type,
            mutability: global.mutability,
            ownership: Ownership::Registered,
        }
    }

    /// The declared value type.
    pub fn get_value_type(&self) -> (val_ty: ValType)
        ensures
            val_ty == self@.value_type,
    {
        self.value_type
    }

    /// The declared mutability.
    pub fn get_mutability(&self) -> (mutable: Mutability)
        ensures
            mutable == self@.mutability,
    {
        self.mutability
    }

    /// Who releases this descriptor.
    pub fn ownership(&self) -> (owner: Ownership)
        ensures
            owner == self@.ownership,
    {
        self.ownership
    }

    /// Ends the life of this handle, and says whether that released the
    /// descriptor: it does for a free-standing handle, and does nothing for a
    /// registered one.
    pub fn destroy(self) -> (released: bool)
        ensures
            released == self@.released_by_destroy(),
    {
        match self.ownership {
            Ownership::Owned => true,
            Ownership::Registered => false,
        }
    }
}

/// A storage cell that holds one value of a declared type.
///
/// The value in the cell always carries the declared tag. A cell cannot be
/// cloned, and destroying it takes it by value.
#[derive(Debug)]
pub struct Global {
    value_type: ValType,
    mutability: Mutability,
    value: Value,
    ownership: Ownership,
}

impl View for Global {
    type V = GlobalView;

    closed spec fn view(&self) -> GlobalView {
        GlobalView {
            value_type: self.value_type,
            mutability: self.mutability,
            value: self.value,
            ownership: self.ownership,
        }
    }
}

impl Global {
    #[verifier::type_invariant]
    spec fn holds_declared_type(self) -> bool {
        self.value.spec_val_type() == self.value_type
    }

    /// Makes a cell of shape `ty` that holds `val`.
    ///
    /// A value of another type than `ty` declares is refused with
    /// `TypeMismatchError`, and `ty` is then left as it was. Otherwise the new
    /// cell is free-standing, and `ty` becomes registered: the caller can
    /// still read it, and destroying it releases nothing.
    pub fn create(ty: &mut GlobalType, val: Value) -> (res: Result<Global, GlobalError>)
        ensures
            match GlobalView::create(old(ty)@, val) {
                Ok(made) => res is Ok && res->Ok_0@ == made,
                Err(e) => res == Err::<Global, GlobalError>(e),
            },
            final(ty)@ == GlobalView::type_after_create(old(ty)@, val),
    {
        if val.val_type() == ty.value_type {
            ty.ownership = Ownership::Registered;
            Ok(
                Global {
                    value_type: ty.value_type,
                    mutability: ty.mutability,
                    value: val,
                    ownership: Ownership::Owned,
                },
            )
        } else {
            Err(GlobalError::TypeMismatchError)
        }
    }

    /// A descriptor of this cell's declared type, registered from the start.
    ///
    /// A cell always knows its type: the answer is always `Ok`.
    pub fn get_type(&self) -> (res: Result<GlobalType, GlobalError>)
        ensures
            res is Ok,
            res->Ok_0@ == self@.type_view(),
            self@.wf(),
    {
        Ok(GlobalType::from_global(self))
    }

    /// A copy of the current value.
    pub fn get_value(&self) -> (val: Value)
        ensures
            val == self@.value,
            self@.wf(),
    {
        proof {
            use_type_invariant(self);
        }
        self.value
    }

    /// Writes `val` into the cell.
    ///
    /// A constant cell refuses every write with `ImmutableGlobalError`; a
    /// writable one refuses a value of another type than it declares with
    /// `TypeMismatchError`. A refused write changes nothing.
    pub fn set_value(&mut self, val: Value) -> (res: Result<(), GlobalError>)
        ensures
            res == old(self)@.set_result(val),
            final(self)@ == old(self)@.after_set(val),
            final(self)@.wf(),
    {
        proof {
            use_type_invariant(&*self);
        }
        match self.mutability {
            Mutability::Const => Err(GlobalError::ImmutableGlobalError),
            Mutability::Var => {
                if val.val_type() == self.value_type {
                    self.value = val;
                    Ok(())
                } else {
                    Err(GlobalError::TypeMismatchError)
                }
            },
        }
    }

    /// Who releases this cell.
    pub fn ownership(&self) -> (owner: Ownership)
        ensures
            owner == self@.ownership,
    {
        self.ownership
    }

    /// Hands the cell to a module instance, which from now on is the one to
    /// release it. A cell that was handed over stays so.
    pub fn register(&mut self)
        ensures
            final(self)@ == old(self)@.registered(),
            final(self)@.wf(),
    {
        proof {
            use_type_invariant(&*self);
        }
        self.ownership = Ownership::Registered;
    }

    /// Ends the life of the creator's handle, and says whether that released
    /// the cell: it does for a free-standing cell, and does nothing for one
    /// that a module instance owns.
    pub fn destroy(self) -> (released: bool)
        ensures
            released == self@.released_by_destroy(),
    {
        match self.ownership {
            Ownership::Owned => true,
            Ownership::Registered => false,
        }
    }

    /// Ends the life of the cell as part of the teardown of a module
    /// instance, and says whether that released it: it does for a cell that
    /// was handed to a module instance, and does nothing for a free-standing
    /// one, which its creator releases.
    pub fn teardown(self) -> (released: bool)
        ensures
            released == self@.released_by_teardown(),
    {
        match self.ownership {
            Ownership::Owned => false,
            Ownership::Registered => true,
        }
    }
}

} // verus!
