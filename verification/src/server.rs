//! Server-side request handling over the shared storage collaborator.
//!
//! The store is a concurrent associative container with per-key atomicity;
//! it is consumed as an opaque dependency behind a small trusted boundary,
//! and the decision logic — what each get or put request answers and how it
//! changes the store — is verified against the store's contents.

use vstd::prelude::*;

verus! {

#[verifier::external_type_specification]
#[verifier::external_body]
#[verifier::reject_recursive_types(K)]
#[verifier::reject_recursive_types(V)]
#[verifier::reject_recursive_types(S)]
pub struct ExDashMap<K, V, S>(dashmap::DashMap<K, V, S>);

/// The association the store currently holds, key to value.
pub uninterp spec fn kv_contents(m: dashmap::DashMap<String, Vec<u8>>) -> Map<Seq<char>, Seq<u8>>;

/// Relies on dashmap::DashMap::new: creates an empty map.
#[verifier::external_body]
fn store_new() -> (r: dashmap::DashMap<String, Vec<u8>>)
    ensures
        kv_contents(r).dom() == Set::<Seq<char>>::empty(),
{
    dashmap::DashMap::new()
}

/// Relies on dashmap::DashMap::get: returns the value the key maps to, if
/// there is one.
#[verifier::external_body]
fn store_get(m: &dashmap::DashMap<String, Vec<u8>>, key: &String) -> (r: Option<Vec<u8>>)
    ensures
        r is Some <==> kv_contents(*m).contains_key(key@),
        (r matches Some(v) ==> v@ == kv_contents(*m)[key@]),
{
    m.get(key).map(|e| e.value().clone())
}

/// Relies on dashmap::DashMap::insert: maps the key to the value, replacing
/// whatever the key mapped to before.
#[verifier::external_body]
fn store_put(m: &mut dashmap::DashMap<String, Vec<u8>>, key: String, value: Vec<u8>)
    ensures
        kv_contents(*final(m)) == kv_contents(*old(m)).insert(key@, value@),
{
    m.insert(key, value);
}

/// One application request, as the server decides on it.
pub enum Command {
    Get { key: String },
    Put { key: String, value: Vec<u8> },
}

/// The server's answer: the key asked about, and the value it holds — or
/// nothing, for a get on a key the store does not hold.
pub struct Response {
    pub key: String,
    pub value: Option<Vec<u8>>,
}

/// The state one server shares across its connections: the storage map.
pub struct ServerState {
    store: dashmap::DashMap<String, Vec<u8>>,
}

impl ServerState {
    /// The association the store currently holds.
    pub closed spec fn contents(&self) -> Map<Seq<char>, Seq<u8>> {
        kv_contents(self.store)
    }

    pub fn new() -> (r: ServerState)
        ensures
            r.contents().dom() == Set::<Seq<char>>::empty(),
    {
        ServerState { store: store_new() }
    }

    /// Handles one request: a get answers with the stored value and leaves
    /// the store as it was; a put maps the key to the value and echoes both
    /// back.
    pub fn apply(&mut self, cmd: Command) -> (r: Response)
        ensures
            (cmd matches Command::Get { key } ==> (final(self).contents() == old(
                self,
            ).contents() && r.key@ == key@ && (old(self).contents().contains_key(key@) ==> (r.value
                matches Some(v) && v@ == old(self).contents()[key@])) && (!old(
                self,
            ).contents().contains_key(key@) ==> r.value is None))),
            (cmd matches Command::Put { key, value } ==> (final(self).contents() == old(
                self,
            ).contents().insert(key@, value@) && r.key@ == key@ && (r.value matches Some(v) && v@
                == value@))),
    {
        match cmd {
            Command::Get { key } => {
                let value = store_get(&self.store, &key);
                Response { key, value }
            },
            Command::Put { key, value } => {
                let echoed = value.clone();
                store_put(&mut self.store, key.clone(), value);
                Response { key, value: Some(echoed) }
            },
        }
    }
}

impl Default for ServerState {
    fn default() -> (r: Self)
        ensures
            r.contents().dom() == Set::<Seq<char>>::empty(),
    {
        ServerState::new()
    }
}

/// Law: connections do not interfere across keys. A put on one key neither
/// adds, removes nor changes what any other key maps to, so sequences of
/// requests on disjoint keys observe the store as if they ran alone.
pub proof fn lemma_key_independence(
    before: Map<Seq<char>, Seq<u8>>,
    key: Seq<char>,
    value: Seq<u8>,
    other: Seq<char>,
)
    requires
        other != key,
    ensures
        before.insert(key, value).contains_key(other) == before.contains_key(other),
        before.contains_key(other) ==> before.insert(key, value)[other] == before[other],
{
}

} // verus!
