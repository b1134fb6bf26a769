//! A whole contract.

use vstd::prelude::*;
use crate::error::Error;
use crate::item_mod::{module_error, module_of, ItemMod};
use crate::syntax::RawModule;

verus! {

/// A contract: one module that holds its state, events and impl blocks.
#[derive(Debug)]
pub struct Contract {
    item: ItemMod,
}

impl Contract {
    pub closed spec fn spec_module(&self) -> ItemMod {
        self.item
    }

    /// Builds the contract from its module; every rejection of the module is
    /// a rejection of the contract.
    pub fn new(fvm_item: RawModule) -> (res: Result<Self, Error>)
        ensures
            match res {
                Ok(contract) => module_error(fvm_item) is None && module_of(
                    contract.spec_module()@,
                    fvm_item,
                ) && contract.spec_module().wf(),
                Err(e) => module_error(fvm_item) == Some(e@),
            },
    {
        match ItemMod::try_from(fvm_item) {
            Ok(item) => Ok(Self { item }),
            Err(e) => Err(e),
        }
    }

    pub fn module(&self) -> (module: &ItemMod)
        ensures
            *module == self.spec_module(),
    {
        &self.item
    }
}

} // verus!
