//! The wire form of the message schema: each message kind serialises to a
//! JSON object whose field names are lower-case-with-underscores, so a
//! variant `EmitData` travels under the tag `emit_data`. Deserialisation
//! accepts exactly the canonical bytes of a known variant and fails with
//! `SchemaMismatch` on any other payload.

use vstd::prelude::*;

use crate::errors::WorkflowError;
use crate::msg::ExecuteMsg;
use crate::msg::InstantiateMsg;
use crate::msg::MigrateMsg;
use crate::msg::QueryMsg;

verus! {

/// The canonical wire bytes of `InstantiateMsg`: the text `{}`.
pub open spec fn instantiate_wire() -> Seq<u8> {
    seq![0x7bu8, 0x7du8]
}

/// The canonical wire bytes of `MigrateMsg`: the text `{}`.
pub open spec fn migrate_wire() -> Seq<u8> {
    seq![0x7bu8, 0x7du8]
}

/// The canonical wire bytes of an `ExecuteMsg`: for `EmitData`, the text
/// `{"emit_data":{}}`.
pub open spec fn execute_wire(m: ExecuteMsg) -> Seq<u8> {
    match m {
        ExecuteMsg::EmitData {  } => seq![
            0x7bu8,
            0x22u8,
            0x65u8,
            0x6du8,
            0x69u8,
            0x74u8,
            0x5fu8,
            0x64u8,
            0x61u8,
            0x74u8,
            0x61u8,
            0x22u8,
            0x3au8,
            0x7bu8,
            0x7du8,
            0x7du8,
        ],
    }
}

/// What decoding an execute payload yields: the variant whose canonical
/// bytes the payload equals, if any.
pub open spec fn decode_execute_wire(b: Seq<u8>) -> Option<ExecuteMsg> {
    if b == execute_wire(ExecuteMsg::EmitData {  }) {
        Some(ExecuteMsg::EmitData {  })
    } else {
        None
    }
}

/// Encoding any execute message and decoding the bytes back yields the
/// original message: the schema round-trip law.
pub proof fn lemma_execute_msg_roundtrip(m: ExecuteMsg)
    ensures
        decode_execute_wire(execute_wire(m)) == Some(m),
{
}

/// Whether two byte strings hold the same bytes.
fn bytes_eq(a: &[u8], b: &[u8]) -> (r: bool)
    ensures
        r <==> a@ == b@,
{
    if a.len() != b.len() {
        return false;
    }
    let mut i: usize = 0;
    while i < a.len()
        invariant
            i <= a.len(),
            a@.len() == b@.len(),
            forall|j: int| 0 <= j < i ==> a@[j] == b@[j],
        decreases a.len() - i,
    {
        if a[i] != b[i] {
            return false;
        }
        i += 1;
    }
    proof {
        assert(a@ =~= b@);
    }
    true
}

/// Serialises an `InstantiateMsg` to its canonical wire bytes.
pub fn encode_instantiate_msg(_m: &InstantiateMsg) -> (r: Vec<u8>)
    ensures
        r@ == instantiate_wire(),
{
    let mut out: Vec<u8> = Vec::new();
    out.push(0x7b);
    out.push(0x7d);
    proof {
        assert(out@ =~= instantiate_wire());
    }
    out
}

/// Serialises a `MigrateMsg` to its canonical wire bytes.
pub fn encode_migrate_msg(_m: &MigrateMsg) -> (r: Vec<u8>)
    ensures
        r@ == migrate_wire(),
{
    let mut out: Vec<u8> = Vec::new();
    out.push(0x7b);
    out.push(0x7d);
    proof {
        assert(out@ =~= migrate_wire());
    }
    out
}

/// Serialises an `ExecuteMsg` to its canonical wire bytes.
pub fn encode_execute_msg(m: &ExecuteMsg) -> (r: Vec<u8>)
    ensures
        r@ == execute_wire(*m),
{
    match m {
        ExecuteMsg::EmitData {  } => {
            let mut out: Vec<u8> = Vec::new();
            out.push(0x7b);
            out.push(0x22);
            out.push(0x65);
            out.push(0x6d);
            out.push(0x69);
            out.push(0x74);
            out.push(0x5f);
            out.push(0x64);
            out.push(0x61);
            out.push(0x74);
            out.push(0x61);
            out.push(0x22);
            out.push(0x3a);
            out.push(0x7b);
            out.push(0x7d);
            out.push(0x7d);
            proof {
                assert(out@ =~= execute_wire(*m));
            }
            out
        },
    }
}

/// Parses the wire bytes of an `InstantiateMsg`: succeeds exactly on the
/// canonical form, and fails with `SchemaMismatch` on anything else.
pub fn decode_instantiate_msg(b: &[u8]) -> (r: Result<InstantiateMsg, WorkflowError>)
    ensures
        b@ == instantiate_wire() ==> (r matches Ok(m) && m == (InstantiateMsg {  })),
        b@ != instantiate_wire() ==> (r matches Err(e) && e is SchemaMismatch),
{
    let expected = encode_instantiate_msg(&InstantiateMsg {  });
    if bytes_eq(b, expected.as_slice()) {
        Ok(InstantiateMsg {  })
    } else {
        Err(WorkflowError::SchemaMismatch)
    }
}

/// Parses the wire bytes of a `MigrateMsg`: succeeds exactly on the
/// canonical form, and fails with `SchemaMismatch` on anything else.
pub fn decode_migrate_msg(b: &[u8]) -> (r: Result<MigrateMsg, WorkflowError>)
    ensures
        b@ == migrate_wire() ==> (r matches Ok(m) && m == (MigrateMsg {  })),
        b@ != migrate_wire() ==> (r matches Err(e) && e is SchemaMismatch),
{
    let expected = encode_migrate_msg(&MigrateMsg {  });
    if bytes_eq(b, expected.as_slice()) {
        Ok(MigrateMsg {  })
    } else {
        Err(WorkflowError::SchemaMismatch)
    }
}

/// Parses the wire bytes of an `ExecuteMsg`: succeeds exactly on the
/// canonical bytes of a known variant, and fails with `SchemaMismatch` on
/// anything else.
pub fn decode_execute_msg(b: &[u8]) -> (r: Result<ExecuteMsg, WorkflowError>)
    ensures
        r matches Ok(m) ==> decode_execute_wire(b@) == Some(m),
        r matches Err(e) ==> decode_execute_wire(b@) is None && e is SchemaMismatch,
{
    let expected = encode_execute_msg(&ExecuteMsg::EmitData {  });
    if bytes_eq(b, expected.as_slice()) {
        Ok(ExecuteMsg::EmitData {  })
    } else {
        Err(WorkflowError::SchemaMismatch)
    }
}

/// Parses the wire bytes of a `QueryMsg`. The schema has no query variant,
/// so no payload matches: every input fails with `SchemaMismatch`.
pub fn decode_query_msg(_b: &[u8]) -> (r: Result<QueryMsg, WorkflowError>)
    ensures
        r matches Err(e) && e is SchemaMismatch,
{
    Err(WorkflowError::SchemaMismatch)
}

} // verus!
