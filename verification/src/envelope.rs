use vstd::prelude::*;

verus! {

/// Run code in the host and return what it printed.
#[derive(Clone, Debug, PartialEq, Eq)]
pub struct RunCode {
    pub command: String,
}

/// Search the marketplace and insert the asset found.
#[derive(Clone, Debug, PartialEq, Eq)]
pub struct InsertModel {
    pub query: String,
}

/// Delete a scene object by name.
#[derive(Clone, Debug, PartialEq, Eq)]
pub struct DeletePart {
    pub part_name: String,
}

/// Take a snapshot of the scene graph.
#[derive(Clone, Debug, PartialEq, Eq)]
pub struct GetProjectStructure {
    pub detail: String,
    pub max_depth: Option<u32>,
    pub root_path: Option<String>,
}

/// The operations that a command can ask of the host.
#[derive(Clone, Debug, PartialEq, Eq)]
pub enum ToolArgumentValues {
    RunCode(RunCode),
    InsertModel(InsertModel),
    DeletePart(DeletePart),
    GetProjectStructure(GetProjectStructure),
}

/// A command envelope: one unit of work and the identifier that its result
/// will carry. The identifier is the 128-bit value of a UUID.
#[derive(Clone, Debug, PartialEq, Eq)]
pub struct ToolArguments {
    pub args: ToolArgumentValues,
    pub id: Option<u128>,
}

/// The result of one command, as the host posts it.
#[derive(Clone, Debug, PartialEq, Eq)]
pub struct RunCommandResponse {
    pub response: String,
    pub id: u128,
}

/// What the host made of a command: its output, or the text of its failure.
pub type HostResult = Result<String, String>;

/// The bits of a UUID that hold its version and its variant.
pub const VERSION_VARIANT_MASK: u128 = 0x0000_0000_0000_F000_C000_0000_0000_0000u128;

/// Those bits in a random (version 4) UUID of the standard variant.
pub const VERSION_VARIANT_RANDOM: u128 = 0x0000_0000_0000_4000_8000_0000_0000_0000u128;

/// Whether `id` is the value of a random UUID: version 4, standard variant.
pub open spec fn is_random_identifier(id: u128) -> bool {
    id & VERSION_VARIANT_MASK == VERSION_VARIANT_RANDOM
}

/// The envelope that carries `args` under the identifier `id`.
pub open spec fn envelope_of(args: ToolArgumentValues, id: u128) -> ToolArguments {
    ToolArguments { args, id: Some(id) }
}

/// Draws an identifier with `uuid::Uuid::new_v4` and hands out its 128-bit
/// value (`Uuid::as_u128`). The value is random; the contract states only
/// what `new_v4` fixes: the version nibble is 4 and the variant bits are `10`.
/// Nothing is proved of this function, and nothing is claimed of two draws
/// being different. Where the system cannot supply random bytes, `new_v4`
/// panics.
#[verifier::external_body]
fn random_identifier() -> (id: u128)
    ensures
        is_random_identifier(id),
{
    uuid::Uuid::new_v4().as_u128()
}

impl ToolArguments {
    /// An envelope for `args` under a newly drawn identifier, and that
    /// identifier.
    pub fn new(args: ToolArgumentValues) -> (r: (ToolArguments, u128))
        ensures
            r.0 == envelope_of(args, r.1),
            is_random_identifier(r.1),
    {
        ToolArguments { args, id: None }.with_id()
    }

    /// The same command under a newly drawn identifier, and that identifier.
    /// An identifier that the envelope had is replaced.
    pub fn with_id(self) -> (r: (ToolArguments, u128))
        ensures
            r.0 == envelope_of(self.args, r.1),
            is_random_identifier(r.1),
    {
        let id: u128 = random_identifier();
        (ToolArguments { args: self.args, id: Some(id) }, id)
    }

}

impl ToolArgumentValues {
    /// Run `command` in the host and return what it printed.
    pub fn run_code(command: String) -> (r: ToolArgumentValues)
        ensures
            r == ToolArgumentValues::RunCode(RunCode { command }),
    {
        ToolArgumentValues::RunCode(RunCode { command })
    }

    /// Insert the marketplace asset that the search for `query` finds.
    pub fn insert_model(query: String) -> (r: ToolArgumentValues)
        ensures
            r == ToolArgumentValues::InsertModel(InsertModel { query }),
    {
        ToolArgumentValues::InsertModel(InsertModel { query })
    }

    /// Delete the scene object named `part_name`.
    pub fn delete_part(part_name: String) -> (r: ToolArgumentValues)
        ensures
            r == ToolArgumentValues::DeletePart(DeletePart { part_name }),
    {
        ToolArgumentValues::DeletePart(DeletePart { part_name })
    }

    /// Take a snapshot of the scene graph at the given level of detail, down
    /// to `max_depth` where it is given, from `root_path` where it is given.
    pub fn get_project_structure(
        detail: String,
        max_depth: Option<u32>,
        root_path: Option<String>,
    ) -> (r: ToolArgumentValues)
        ensures
            r == ToolArgumentValues::GetProjectStructure(
                GetProjectStructure { detail, max_depth, root_path },
            ),
    {
        ToolArgumentValues::GetProjectStructure(GetProjectStructure { detail, max_depth, root_path })
    }
}

} // verus!
