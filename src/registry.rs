use vstd::prelude::*;

verus! {

/// One registered command: a small id, a name and description shown to the
/// server, and the local executable that is never shown to it.
pub struct MacronFunction {
    pub id: u8,
    pub name: String,
    pub description: String,
    pub command: String,
}

/// What the server learns of a registered command.
pub struct FunctionSummary {
    pub name: String,
    pub description: String,
}

/// Where the server is and how to log in to it.
pub struct ServerConfig {
    pub url: String,
    pub email: String,
    pub password: String,
}

/// The agent's configuration, loaded once and never changed.
pub struct MacronConfig {
    pub server: ServerConfig,
    pub functions: Vec<MacronFunction>,
}

/// The ways the agent fails.
#[derive(PartialEq, Eq, Structural, Clone, Copy, Debug)]
pub enum MacronError {
    ConfigMissing,
    AuthRejected,
    TransportFailure,
    MalformedMessage,
    FunctionNotFound,
    LaunchFailure,
}

/// The registry lists `list` in order, reduced to name and description.
pub open spec fn discloses(list: Seq<FunctionSummary>, registry: Seq<MacronFunction>) -> bool {
    &&& list.len() == registry.len()
    &&& forall|i: int|
        0 <= i < list.len() ==> {
            &&& #[trigger] list[i].name@ == registry[i].name@
            &&& list[i].description@ == registry[i].description@
        }
}

/// Resolves a registry entry by its position in the list (not by its `id`
/// field) and gives the command to launch.
pub fn function_command(functions: &Vec<MacronFunction>, index: usize) -> (r: Result<String, MacronError>)
    ensures
        index < functions@.len() <==> r is Ok,
        r is Ok ==> r->Ok_0@ == functions@[index as int].command@,
        r is Err ==> r->Err_0 == MacronError::FunctionNotFound,
{
    if index < functions.len() {
        Ok(functions[index].command.clone())
    } else {
        Err(MacronError::FunctionNotFound)
    }
}

/// The registry as it is disclosed to the server: name and description of each
/// entry, in list order.
pub fn summaries(functions: &Vec<MacronFunction>) -> (r: Vec<FunctionSummary>)
    ensures
        discloses(r@, functions@),
{
    let mut r: Vec<FunctionSummary> = Vec::new();
    let mut i: usize = 0;
    while i < functions.len()
        invariant
            i <= functions@.len(),
            r@.len() == i,
            forall|k: int|
                0 <= k < i ==> {
                    &&& #[trigger] r@[k].name@ == functions@[k].name@
                    &&& r@[k].description@ == functions@[k].description@
                },
        decreases functions@.len() - i,
    {
        let f = &functions[i];
        r.push(FunctionSummary { name: f.name.clone(), description: f.description.clone() });
        i = i + 1;
    }
    r
}

} // verus!
