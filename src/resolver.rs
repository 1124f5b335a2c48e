use vstd::prelude::*;

verus! {

/// The host functions that the sandbox can import by name.
#[derive(Clone, Copy, Debug, PartialEq, Eq, Structural)]
pub enum HostFunction {
    Debug,
    CallContract,
    Notify,
    StorageRead,
    StorageWrite,
    StorageDelete,
    ContractCreate,
    ContractMigrate,
    ContractDestroy,
}

/// The host function imported under `field`, if it is one of this layer's;
/// `None` leaves the name to the engine's base table.
pub open spec fn spec_resolve(field: Seq<char>) -> Option<HostFunction> {
    if field == "ontio_debug"@ {
        Some(HostFunction::Debug)
    } else if field == "ontio_call_contract"@ {
        Some(HostFunction::CallContract)
    } else if field == "ontio_notify"@ {
        Some(HostFunction::Notify)
    } else if field == "ontio_storage_read"@ {
        Some(HostFunction::StorageRead)
    } else if field == "ontio_storage_write"@ {
        Some(HostFunction::StorageWrite)
    } else if field == "ontio_storage_delete"@ {
        Some(HostFunction::StorageDelete)
    } else if field == "ontio_contract_create"@ {
        Some(HostFunction::ContractCreate)
    } else if field == "ontio_contract_migrate"@ {
        Some(HostFunction::ContractMigrate)
    } else if field == "ontio_contract_destroy"@ {
        Some(HostFunction::ContractDestroy)
    } else {
        None
    }
}

/// Resolves the imports of a sandboxed module against the chain host calls.
pub struct OntoChainResolver {}

impl OntoChainResolver {
    pub fn new() -> (r: Self) {
        OntoChainResolver {  }
    }

    /// The host function imported as `field` of `module`; the module name
    /// plays no part. `None` sends the name on to the engine's base table.
    pub fn resolve(&self, module: &str, field: &str) -> (r: Option<HostFunction>)
        ensures
            r == spec_resolve(field@),
    {
        let f = field.to_owned();
        if f == "ontio_debug".to_owned() {
            Some(HostFunction::Debug)
        } else if f == "ontio_call_contract".to_owned() {
            Some(HostFunction::CallContract)
        } else if f == "ontio_notify".to_owned() {
            Some(HostFunction::Notify)
        } else if f == "ontio_storage_read".to_owned() {
            Some(HostFunction::StorageRead)
        } else if f == "ontio_storage_write".to_owned() {
            Some(HostFunction::StorageWrite)
        } else if f == "ontio_storage_delete".to_owned() {
            Some(HostFunction::StorageDelete)
        } else if f == "ontio_contract_create".to_owned() {
            Some(HostFunction::ContractCreate)
        } else if f == "ontio_contract_migrate".to_owned() {
            Some(HostFunction::ContractMigrate)
        } else if f == "ontio_contract_destroy".to_owned() {
            Some(HostFunction::ContractDestroy)
        } else {
            None
        }
    }
}

} // verus!
