//! The MIDI bridge's own rules: naming endpoints, finding a port by name,
//! the single-slot connection of each direction, and what is sent and
//! relayed. The driver itself is driven by the caller, which hands the
//! outcomes of its calls to these functions.
use crate::codec::{decode, encode, hex_upper, hex_value, is_hex_text};
use crate::error::BridgeError;
use vstd::prelude::*;

verus! {

/// A MIDI port as the user interface sees it: by its display name only.
#[derive(Clone, Debug, PartialEq, Eq)]
pub struct BossMidiEndpoint {
    pub midi_entity_name_key: String,
}

/// The name under which a port is listed: its driver name, or `Unknown`
/// when the driver cannot give one.
pub open spec fn listed_name(name: Option<String>) -> Seq<char> {
    match name {
        Some(s) => s@,
        None => "Unknown"@,
    }
}

/// The name a port is matched by when connecting: its driver name, or the
/// empty text when the driver cannot give one.
pub open spec fn matched_name(name: Option<String>) -> Seq<char> {
    match name {
        Some(s) => s@,
        None => Seq::empty(),
    }
}

/// Whether no port in `names` is matched by `wanted`.
pub open spec fn no_port_named(names: Seq<Option<String>>, wanted: Seq<char>) -> bool {
    forall|j: int| 0 <= j < names.len() ==> matched_name(#[trigger] names[j]) != wanted
}

/// Whether `i` is the first port in `names` matched by `wanted`.
pub open spec fn first_port_named(names: Seq<Option<String>>, wanted: Seq<char>, i: int) -> bool {
    &&& 0 <= i < names.len()
    &&& matched_name(names[i]) == wanted
    &&& forall|j: int| 0 <= j < i ==> matched_name(#[trigger] names[j]) != wanted
}

/// The endpoints for the port names a driver reported, in the driver's
/// order, with `Unknown` for a name it could not give.
pub fn endpoints_from_names(names: &Vec<Option<String>>) -> (r: Vec<BossMidiEndpoint>)
    ensures
        r.len() == names.len(),
        forall|i: int|
            0 <= i < r.len() ==> (#[trigger] r[i]).midi_entity_name_key@ == listed_name(names[i]),
{
    let mut r: Vec<BossMidiEndpoint> = Vec::new();
    let mut i: usize = 0;
    while i < names.len()
        invariant
            i <= names.len(),
            r.len() == i,
            forall|k: int|
                0 <= k < i ==> (#[trigger] r[k]).midi_entity_name_key@ == listed_name(names[k]),
        decreases names.len() - i,
    {
        let name = match &names[i] {
            Some(s) => s.clone(),
            None => String::from_str("Unknown"),
        };
        r.push(BossMidiEndpoint { midi_entity_name_key: name });
        i = i + 1;
    }
    r
}

/// The index of the first port whose name matches the endpoint's exactly; a
/// port whose name the driver cannot give matches only the empty name.
/// With no match, `PortNotFound` carrying the requested name.
pub fn resolve_port(names: &Vec<Option<String>>, endpoint: &BossMidiEndpoint) -> (r: Result<
    usize,
    BridgeError,
>)
    ensures
        r is Err <==> no_port_named(names@, endpoint.midi_entity_name_key@),
        r matches Ok(i) ==> first_port_named(names@, endpoint.midi_entity_name_key@, i as int),
        r matches Err(e) ==> (e matches BridgeError::PortNotFound(n) && n@
            == endpoint.midi_entity_name_key@),
{
    let mut i: usize = 0;
    while i < names.len()
        invariant
            i <= names.len(),
            forall|j: int|
                0 <= j < i ==> matched_name(#[trigger] names@[j]) != endpoint.midi_entity_name_key@,
        decreases names.len() - i,
    {
        let hit = match &names[i] {
            Some(s) => *s == endpoint.midi_entity_name_key,
            None => {
                let w = endpoint.midi_entity_name_key.as_str();
                assert(w@.len() == 0 ==> w@ =~= Seq::<char>::empty());
                w.is_empty()
            },
        };
        if hit {
            return Ok(i);
        }
        i = i + 1;
    }
    Err(BridgeError::PortNotFound(endpoint.midi_entity_name_key.clone()))
}

/// The bytes to write for an outgoing hex message. Malformed hex is
/// `InvalidEncoding` whether or not an output is connected; with no output
/// connected there is nothing to write.
pub fn outgoing_bytes(msg: &str, connected: bool) -> (r: Result<Option<Vec<u8>>, BridgeError>)
    ensures
        r is Err <==> !is_hex_text(msg@),
        r matches Err(e) ==> e is InvalidEncoding,
        r matches Ok(o) ==> (o is Some <==> connected),
        !connected && is_hex_text(msg@) ==> r == Ok::<Option<Vec<u8>>, BridgeError>(None),
        r matches Ok(Some(v)) ==> v@ == hex_value(msg@),
{
    let bytes = decode(msg)?;
    if connected {
        Ok(Some(bytes))
    } else {
        Ok(None)
    }
}

/// The `midi_message` payload for a received message: its upper-case hex
/// text and the driver's timestamp.
pub fn relay_payload(message: &[u8], stamp: u64) -> (r: (String, u64))
    ensures
        r.0@ == hex_upper(message@),
        r.1 == stamp,
{
    (encode(message), stamp)
}

/// The connection of one direction: at most one live handle, owned here.
/// Putting a new handle in hands the previous one back to be closed.
pub struct ConnectionSlot<T> {
    pub handle: Option<T>,
}

/// The handle a slot holds after a connect attempt with the given outcome:
/// the new handle when the port opened, the old one untouched otherwise.
pub open spec fn handle_after<T>(before: Option<T>, opened: Result<T, BridgeError>) -> Option<T> {
    match opened {
        Ok(c) => Some(c),
        Err(_) => before,
    }
}

impl<T> ConnectionSlot<T> {
    /// An empty slot: nothing connected.
    pub fn new() -> (r: Self)
        ensures
            r.handle is None,
    {
        ConnectionSlot { handle: None }
    }

    /// Whether a handle is held.
    pub fn is_connected(&self) -> (r: bool)
        ensures
            r == self.handle is Some,
    {
        self.handle.is_some()
    }

    /// Takes the outcome of opening a port. On success the new handle
    /// replaces the old, which is handed back so that the caller closes it;
    /// on failure the slot is left as it was and the error is returned.
    pub fn connect(&mut self, opened: Result<T, BridgeError>) -> (r: Result<Option<T>, BridgeError>)
        ensures
            final(self).handle == handle_after(old(self).handle, opened),
            r is Ok <==> opened is Ok,
            r matches Ok(prev) ==> prev == old(self).handle,
            r matches Err(e) ==> opened == Err::<T, BridgeError>(e),
    {
        match opened {
            Ok(c) => {
                let prev = self.handle.take();
                self.handle = Some(c);
                Ok(prev)
            },
            Err(e) => Err(e),
        }
    }
}

/// Two successful connects in a row leave exactly the second handle in the
/// slot, and the second connect hands the first handle back to be closed.
pub proof fn lemma_connect_replaces<T>(before: Option<T>, first: T, second: T)
    ensures
        handle_after(handle_after(before, Ok(first)), Ok(second)) == Some(second),
        handle_after(before, Ok::<T, BridgeError>(first)) == Some(first),
{
}

/// Connecting to a name that no live port has fails with `PortNotFound`
/// before any port is opened, and leaves the connection that was there.
pub proof fn lemma_not_found_keeps_connection<T>(
    names: Seq<Option<String>>,
    wanted: Seq<char>,
    before: Option<T>,
    e: BridgeError,
)
    requires
        no_port_named(names, wanted),
        e is PortNotFound,
    ensures
        forall|i: int| !first_port_named(names, wanted, i),
        handle_after(before, Err(e)) == before,
{
}

} // verus!
