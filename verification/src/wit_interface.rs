//! WIT interfaces extracted from WebAssembly components.
use vstd::prelude::*;

verus! {

/// A WIT interface extracted from a WebAssembly component.
#[derive(Debug, Clone)]
pub struct WitInterface {
    /// Row id in the local store.
    pub id: i64,
    /// The package name (e.g., "wasi:http@0.2.0")
    pub package_name: Option<String>,
    /// The full WIT text representation
    pub wit_text: String,
    /// The world name if available
    pub world_name: Option<String>,
    /// Number of imports
    pub import_count: i32,
    /// Number of exports
    pub export_count: i32,
    /// When this was created
    pub created_at: String,
}

impl WitInterface {
    /// Returns the ID of this WIT interface.
    pub fn id(&self) -> (r: i64)
        ensures
            r == self.id,
    {
        self.id
    }

    /// Create a new WitInterface for testing purposes
    pub fn new_for_testing(
        id: i64,
        package_name: Option<String>,
        wit_text: String,
        world_name: Option<String>,
        import_count: i32,
        export_count: i32,
        created_at: String,
    ) -> (r: Self)
        ensures
            r.id == id,
            r.package_name == package_name,
            r.wit_text == wit_text,
            r.world_name == world_name,
            r.import_count == import_count,
            r.export_count == export_count,
            r.created_at == created_at,
    {
        WitInterface { id, package_name, wit_text, world_name, import_count, export_count, created_at }
    }
}

} // verus!
