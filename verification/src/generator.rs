//! The generators of a contract: one for the state, one for the impl
//! blocks, one for the whole.

use vstd::prelude::*;
use crate::codegen::{
    generate_code, generate_item_impl, generate_storage_struct, impl_blocks_of, impl_codes_of,
    module_messages, rust_items_of, table_of, ContractCode, ImplCode, StateCode,
};
use crate::contract;
use crate::item::{FvmItem, Item};
use crate::syntax::RawItem;

verus! {

/// Something that code is generated for.
pub trait GenerateCode {
    /// What is generated.
    type Code;

    /// Whether `code` is what is generated; none where a message is left
    /// without a method number.
    spec fn generated(&self, code: Option<Self::Code>) -> bool;

    fn generate_code(&self) -> (code: Option<Self::Code>)
        ensures
            self.generated(code),
    ;
}

/// Generates the state of a contract with its dispatch.
#[derive(Debug)]
pub struct State<'a> {
    contract: &'a contract::Contract,
}

impl<'a> State<'a> {
    pub closed spec fn spec_contract(&self) -> contract::Contract {
        *self.contract
    }

    pub fn from(contract: &'a contract::Contract) -> (generator: Self)
        ensures
            generator.spec_contract() == *contract,
    {
        Self { contract }
    }

    pub fn as_ref(&self) -> (contract: &'a contract::Contract)
        ensures
            *contract == self.spec_contract(),
    {
        self.contract
    }
}

impl<'a> GenerateCode for State<'a> {
    type Code = StateCode<'a>;

    open spec fn generated(&self, code: Option<StateCode<'a>>) -> bool {
        let items = self.spec_contract().spec_module()@.items;
        match code {
            Some(code) => code.table.wf() && code.table@ == table_of(
                module_messages(items, items.len() as int),
            ) && (exists|i: int|
                0 <= i < items.len() && #[trigger] items[i] == Item::Fvm(
                    FvmItem::State(*code.state),
                )),
            None => module_messages(items, items.len() as int).len() >= u64::MAX,
        }
    }

    fn generate_code(&self) -> (code: Option<StateCode<'a>>) {
        generate_storage_struct(self.contract.module())
    }
}

/// Generates the impl blocks of a contract.
#[derive(Debug)]
pub struct ItemImpls<'a> {
    contract: &'a contract::Contract,
}

impl<'a> ItemImpls<'a> {
    pub closed spec fn spec_contract(&self) -> contract::Contract {
        *self.contract
    }

    pub fn from(contract: &'a contract::Contract) -> (generator: Self)
        ensures
            generator.spec_contract() == *contract,
    {
        Self { contract }
    }

    pub fn as_ref(&self) -> (contract: &'a contract::Contract)
        ensures
            *contract == self.spec_contract(),
    {
        self.contract
    }
}

impl<'a> GenerateCode for ItemImpls<'a> {
    type Code = Vec<ImplCode<'a>>;

    open spec fn generated(&self, code: Option<Vec<ImplCode<'a>>>) -> bool {
        let items = self.spec_contract().spec_module()@.items;
        match code {
            Some(codes) => impl_codes_of(codes@, impl_blocks_of(items, items.len() as int)),
            None => false,
        }
    }

    fn generate_code(&self) -> (code: Option<Vec<ImplCode<'a>>>) {
        let items = self.contract.module().items();
        let mut impls: Vec<ImplCode<'a>> = Vec::new();
        let mut i: usize = 0;
        while i < items.len()
            invariant
                i <= items@.len(),
                items@ == self.spec_contract().spec_module()@.items,
                impl_codes_of(impls@, impl_blocks_of(items@, i as int)),
            decreases items@.len() - i,
        {
            if let Item::Fvm(FvmItem::ImplBlock(block)) = &items[i] {
                impls.push(generate_item_impl(block));
            }
            i += 1;
        }
        Some(impls)
    }
}

/// Generates a whole contract.
#[derive(Debug)]
pub struct Contract<'a> {
    contract: &'a contract::Contract,
}

impl<'a> Contract<'a> {
    pub closed spec fn spec_contract(&self) -> contract::Contract {
        *self.contract
    }

    pub fn from(contract: &'a contract::Contract) -> (generator: Self)
        ensures
            generator.spec_contract() == *contract,
    {
        Self { contract }
    }

    pub fn as_ref(&self) -> (contract: &'a contract::Contract)
        ensures
            *contract == self.spec_contract(),
    {
        self.contract
    }
}

impl<'a> GenerateCode for Contract<'a> {
    type Code = ContractCode<'a>;

    open spec fn generated(&self, code: Option<ContractCode<'a>>) -> bool {
        let items = self.spec_contract().spec_module()@.items;
        match code {
            Some(code) => {
                &&& *code.module == self.spec_contract().spec_module()
                &&& code.rust_items@.map_values(|r: &RawItem| *r) == rust_items_of(
                    items,
                    items.len() as int,
                )
                &&& exists|i: int|
                    0 <= i < items.len() && #[trigger] items[i] == Item::Fvm(
                        FvmItem::State(*code.state.state),
                    )
                &&& code.state.table.wf()
                &&& code.state.table@ == table_of(module_messages(items, items.len() as int))
                &&& impl_codes_of(code.impls@, impl_blocks_of(items, items.len() as int))
            },
            None => module_messages(items, items.len() as int).len() >= u64::MAX,
        }
    }

    fn generate_code(&self) -> (code: Option<ContractCode<'a>>) {
        generate_code(self.contract)
    }
}

} // verus!
