//! Per-node persistent state: the address of one persisted value, the
//! value with its version, the size caps both are held to, and the store
//! seam a node reads and writes through.

use vstd::prelude::*;
use vstd::string::*;

use crate::decimal::{decimal, format_u64};
use crate::ids::{FlowId, NodeId};

verus! {

/// Cap on the byte length of a state key.
pub const MAX_KEY_BYTES: usize = 256usize;

/// Cap on the byte length of a state value: 64 KiB.
pub const MAX_VALUE_BYTES: usize = 65_536usize;

/// Why a node-state operation failed.
#[derive(Debug)]
pub enum NodeStateError {
    /// The key text is over [`MAX_KEY_BYTES`] bytes.
    KeyTooLarge {
        /// Byte length given.
        len: usize,
        /// The cap.
        max: usize,
    },
    /// The value is over [`MAX_VALUE_BYTES`] bytes.
    ValueTooLarge {
        /// Byte length given.
        len: usize,
        /// The cap.
        max: usize,
    },
    /// A compare-and-swap expected another version.
    CasMismatch {
        /// Version the caller expected.
        expected: u64,
        /// Version stored, if a row exists.
        actual: Option<u64>,
    },
    /// The storage backend failed.
    Backend(String),
}

/// The text a node-state error renders as.
pub open spec fn state_error_text(e: NodeStateError) -> Seq<char> {
    match e {
        NodeStateError::KeyTooLarge { len, max } => "node-state key too large: "@ + decimal(len as nat) + " > "@
            + decimal(max as nat) + " bytes"@,
        NodeStateError::ValueTooLarge { len, max } => "node-state value too large: "@ + decimal(len as nat)
            + " > "@ + decimal(max as nat) + " bytes"@,
        NodeStateError::CasMismatch { expected, actual } => "node-state CAS mismatch: expected version "@
            + decimal(expected as nat) + ", found "@ + match actual {
            Some(a) => "Some("@ + decimal(a as nat) + ")"@,
            None => "None"@,
        },
        NodeStateError::Backend(t) => "node-state backend error: "@ + t@,
    }
}

impl NodeStateError {
    /// Human-readable message.
    pub fn message(&self) -> (m: String)
        ensures
            m@ == state_error_text(*self),
    {
        match self {
            NodeStateError::KeyTooLarge { len, max } => {
                let m = String::from_str("node-state key too large: ");
                let m = m.concat(format_u64(*len as u64).as_str()).concat(" > ");
                m.concat(format_u64(*max as u64).as_str()).concat(" bytes")
            },
            NodeStateError::ValueTooLarge { len, max } => {
                let m = String::from_str("node-state value too large: ");
                let m = m.concat(format_u64(*len as u64).as_str()).concat(" > ");
                m.concat(format_u64(*max as u64).as_str()).concat(" bytes")
            },
            NodeStateError::CasMismatch { expected, actual } => {
                let m = String::from_str("node-state CAS mismatch: expected version ");
                let m = m.concat(format_u64(*expected).as_str()).concat(", found ");
                match actual {
                    Some(a) => m.concat("Some(").concat(format_u64(*a).as_str()).concat(")"),
                    None => m.concat("None"),
                }
            },
            NodeStateError::Backend(t) => String::from_str("node-state backend error: ").concat(
                t.as_str(),
            ),
        }
    }
}

/// Address of one persisted value: owning flow, owning node, and a key text
/// of at most [`MAX_KEY_BYTES`] UTF-8 bytes.
#[derive(Debug)]
pub struct NodeStateKey {
    /// Owning flow.
    pub flow_id: FlowId,
    /// Owning node.
    pub node_id: NodeId,
    /// Per-node key.
    pub key: String,
}

impl NodeStateKey {
    /// Build a key, refusing a key text over the cap.
    pub fn new(flow_id: FlowId, node_id: NodeId, key: String) -> (r: Result<NodeStateKey, NodeStateError>)
        requires
            vstd::utf8::encode_utf8(key@).len() <= usize::MAX,
        ensures
            vstd::utf8::encode_utf8(key@).len() <= MAX_KEY_BYTES ==> (r matches Ok(k) && k.flow_id@ == flow_id@
                && k.node_id@ == node_id@ && k.key@ == key@),
            vstd::utf8::encode_utf8(key@).len() > MAX_KEY_BYTES ==> (r matches Err(
                NodeStateError::KeyTooLarge { len, max },
            ) && len == vstd::utf8::encode_utf8(key@).len() && max == MAX_KEY_BYTES),
    {
        let k: &str = key.as_str();
        assert(k.spec_bytes() == vstd::utf8::encode_utf8(key@));
        let len = k.len();
        if len > MAX_KEY_BYTES {
            return Err(NodeStateError::KeyTooLarge { len, max: MAX_KEY_BYTES });
        }
        Ok(NodeStateKey { flow_id, node_id, key })
    }
}

/// Bytes persisted under a key, with the version the store gave them.
#[derive(Debug)]
pub struct NodeStateValue {
    /// The bytes, at most [`MAX_VALUE_BYTES`].
    pub bytes: Vec<u8>,
    /// Version: `1` for the first write, one more for each later one.
    pub version: u64,
}

impl NodeStateValue {
    /// Build a value, refusing bytes over the cap.
    pub fn new(bytes: Vec<u8>, version: u64) -> (r: Result<NodeStateValue, NodeStateError>)
        ensures
            bytes@.len() <= MAX_VALUE_BYTES ==> (r matches Ok(v) && v.bytes@ == bytes@ && v.version == version),
            bytes@.len() > MAX_VALUE_BYTES ==> (r matches Err(NodeStateError::ValueTooLarge { len, max }) && len
                == bytes@.len() && max == MAX_VALUE_BYTES),
    {
        if bytes.len() > MAX_VALUE_BYTES {
            let len = bytes.len();
            return Err(NodeStateError::ValueTooLarge { len, max: MAX_VALUE_BYTES });
        }
        Ok(NodeStateValue { bytes, version })
    }
}

/// A per-node key/value store with optimistic compare-and-swap, implemented
/// by the host's storage backends.
pub trait NodeStateStore {
    /// The current value, or `None` when no row exists.
    fn get(&self, key: &NodeStateKey) -> Result<Option<NodeStateValue>, NodeStateError>;

    /// Write `bytes`, returning the new version.
    fn put(&self, key: &NodeStateKey, bytes: Vec<u8>) -> Result<u64, NodeStateError>;

    /// Write `bytes` if the stored version is `expected` (`0`: no row).
    fn cas(&self, key: &NodeStateKey, expected: u64, bytes: Vec<u8>) -> Result<u64, NodeStateError>;

    /// Delete the row if present.
    fn delete(&self, key: &NodeStateKey) -> Result<(), NodeStateError>;
}

/// A store that reads nothing and refuses every write: the default when no
/// real store is wired in, so a body that persists state fails loudly.
#[derive(Debug, Clone, Copy)]
pub struct NoopNodeStateStore;

/// The shared no-op store.
pub const NOOP_NODE_STATE_STORE: NoopNodeStateStore = NoopNodeStateStore;

impl Default for NoopNodeStateStore {
    fn default() -> (s: NoopNodeStateStore) {
        NoopNodeStateStore
    }
}

impl NodeStateStore for NoopNodeStateStore {
    fn get(&self, key: &NodeStateKey) -> (r: Result<Option<NodeStateValue>, NodeStateError>)
        ensures
            r matches Ok(None),
    {
        Ok(None)
    }

    fn put(&self, key: &NodeStateKey, bytes: Vec<u8>) -> (r: Result<u64, NodeStateError>)
        ensures
            r matches Err(NodeStateError::Backend(m)) && m@
                == "NoopNodeStateStore::put called \u{2014} wire a real NodeStateStore into NodeCtx"@,
    {
        Err(
            NodeStateError::Backend(
                String::from_str(
                    "NoopNodeStateStore::put called \u{2014} wire a real NodeStateStore into NodeCtx",
                ),
            ),
        )
    }

    fn cas(&self, key: &NodeStateKey, expected: u64, bytes: Vec<u8>) -> (r: Result<u64, NodeStateError>)
        ensures
            r matches Err(NodeStateError::Backend(m)) && m@
                == "NoopNodeStateStore::cas called \u{2014} wire a real NodeStateStore into NodeCtx"@,
    {
        Err(
            NodeStateError::Backend(
                String::from_str(
                    "NoopNodeStateStore::cas called \u{2014} wire a real NodeStateStore into NodeCtx",
                ),
            ),
        )
    }

    fn delete(&self, key: &NodeStateKey) -> (r: Result<(), NodeStateError>)
        ensures
            r matches Err(NodeStateError::Backend(m)) && m@
                == "NoopNodeStateStore::delete called \u{2014} wire a real NodeStateStore into NodeCtx"@,
    {
        Err(
            NodeStateError::Backend(
                String::from_str(
                    "NoopNodeStateStore::delete called \u{2014} wire a real NodeStateStore into NodeCtx",
                ),
            ),
        )
    }
}

} // verus!
