use crate::client::{seg_bytes, Graph, Method};
use crate::render::{append_bytes, opt_view, push_lit, pairs_view};
use crate::response::{json_canon_of, parse_json_canon, Failure, FailureModel};
use crate::url::GraphUrl;
use vstd::prelude::*;
use vstd::string::StringSliceAdditionalSpecFns;
use vstd::utf8::encode_utf8;

verus! {

/// One sub-operation of a batch: already reduced to a method, a
/// relative path, and an optional serialized body.
pub struct BatchOp {
    pub method: Method,
    pub url: Vec<u8>,
    pub body: Option<Vec<u8>>,
}

/// View of one sub-operation.
pub open spec fn op_view(op: BatchOp) -> (Method, Seq<u8>, Option<Seq<u8>>) {
    (op.method, op.url@, opt_view(op.body))
}

/// View of an ordered sub-operation list.
pub open spec fn ops_view(ops: Vec<BatchOp>) -> Seq<(Method, Seq<u8>, Option<Seq<u8>>)> {
    ops@.map_values(|op: BatchOp| op_view(op))
}

/// The decimal digits of `n`, most significant first.
pub open spec fn dec_spec(n: nat) -> Seq<u8>
    decreases n,
{
    if n < 10 {
        seq![(48 + n) as u8]
    } else {
        dec_spec(n / 10).push((48 + n % 10) as u8)
    }
}

/// One byte as it stands inside a JSON string: a quote or a backslash
/// is preceded by a backslash, every other byte is copied.
pub open spec fn esc_byte(b: u8) -> Seq<u8> {
    if b == 34 || b == 92 {
        seq![92u8, b]
    } else {
        seq![b]
    }
}

/// A byte string as it stands inside a JSON string.
pub open spec fn esc_spec(s: Seq<u8>) -> Seq<u8>
    decreases s.len(),
{
    if s.len() == 0 {
        Seq::empty()
    } else {
        esc_spec(s.drop_last()) + esc_byte(s.last())
    }
}

/// The wire name of a method, as bytes.
pub open spec fn method_bytes(m: Method) -> Seq<u8> {
    encode_utf8(m.name())
}

/// The serialized form of the sub-operation at position `idx` (ids are
/// one-based positions): an `Err` marks a body that fails to encode.
pub open spec fn entry_spec(op: (Method, Seq<u8>, Option<Seq<u8>>), idx: int) -> Result<
    Seq<u8>,
    (),
> {
    let head = "{\"id\":\"".spec_bytes() + dec_spec((idx + 1) as nat)
        + "\",\"method\":\"".spec_bytes() + method_bytes(op.0) + "\",\"url\":\"".spec_bytes()
        + esc_spec(op.1) + "\"".spec_bytes();
    match op.2 {
        None => Ok(head + "}".spec_bytes()),
        Some(b) => match json_canon_of(b) {
            None => Err(()),
            Some(t) => Ok(head + ",\"body\":".spec_bytes() + t + "}".spec_bytes()),
        },
    }
}

/// The serialized entries of the first `n` sub-operations, in input
/// order, separated by commas.
pub open spec fn entries_spec(ops: Seq<(Method, Seq<u8>, Option<Seq<u8>>)>, n: int) -> Result<
    Seq<u8>,
    (),
>
    decreases n,
{
    if n <= 0 {
        Ok(Seq::empty())
    } else {
        match entries_spec(ops, n - 1) {
            Err(e) => Err(e),
            Ok(acc) => match entry_spec(ops[n - 1], n - 1) {
                Err(e) => Err(e),
                Ok(entry) => Ok(
                    acc + (if n - 1 > 0 {
                        ",".spec_bytes()
                    } else {
                        Seq::<u8>::empty()
                    }) + entry,
                ),
            },
        }
    }
}

/// The one compound body composed over the ordered sub-operations: a
/// JSON array under the fixed wrapper key. `Err` marks a serialization
/// failure of some entry; then no body exists at all.
pub open spec fn batch_body_spec(ops: Seq<(Method, Seq<u8>, Option<Seq<u8>>)>) -> Result<
    Seq<u8>,
    (),
> {
    match entries_spec(ops, ops.len() as int) {
        Err(e) => Err(e),
        Ok(entries) => Ok("{\"requests\":[".spec_bytes() + entries + "]}".spec_bytes()),
    }
}

/// The fixed path every batch is dispatched to.
pub open spec fn batch_path() -> Seq<u8> {
    "$batch".spec_bytes()
}

/// The Accept header staged with every batch.
pub open spec fn accept_key() -> Seq<u8> {
    "Accept".spec_bytes()
}

pub open spec fn accept_json() -> Seq<u8> {
    "application/json".spec_bytes()
}

/// An entry that fails to encode fails the whole composition.
proof fn lemma_entries_err(ops: Seq<(Method, Seq<u8>, Option<Seq<u8>>)>, i: int, n: int)
    requires
        0 <= i < n,
        entry_spec(ops[i], i) is Err,
    ensures
        entries_spec(ops, n) is Err,
    decreases n,
{
    if n - 1 > i {
        lemma_entries_err(ops, i, n - 1);
    }
}

/// Appends the decimal digits of `n`.
fn push_decimal(out: &mut Vec<u8>, n: u64)
    ensures
        final(out)@ == old(out)@ + dec_spec(n as nat),
    decreases n,
{
    if n >= 10 {
        push_decimal(out, n / 10);
    }
    out.push(48 + (n % 10) as u8);
    proof {
        if n < 10 {
            assert(old(out)@.push((48 + n as nat) as u8) =~= old(out)@ + seq![(48 + n as nat) as u8]);
        }
    }
}

/// Appends `s` as it stands inside a JSON string.
fn push_escaped(out: &mut Vec<u8>, s: &Vec<u8>)
    ensures
        final(out)@ == old(out)@ + esc_spec(s@),
{
    let mut j: usize = 0;
    proof {
        assert(esc_spec(s@.take(0)) =~= Seq::<u8>::empty());
        assert(out@ =~= old(out)@ + esc_spec(s@.take(0)));
    }
    while j < s.len()
        invariant
            j <= s@.len(),
            out@ == old(out)@ + esc_spec(s@.take(j as int)),
        decreases s@.len() - j,
    {
        let b = s[j];
        if b == 34 || b == 92 {
            out.push(92);
            out.push(b);
        } else {
            out.push(b);
        }
        proof {
            assert(s@.take(j + 1).drop_last() =~= s@.take(j as int));
            assert(s@.take(j + 1).last() == s@[j as int]);
            assert(out@ =~= old(out)@ + esc_spec(s@.take(j + 1)));
        }
        j += 1;
    }
    proof {
        assert(s@.take(s@.len() as int) =~= s@);
    }
}

/// Appends the serialized entry of `op` at position `idx`; reports
/// `false` when the body fails to encode (what was appended is then
/// discarded by the caller).
fn push_entry(out: &mut Vec<u8>, op: &BatchOp, idx: u64) -> (r: bool)
    requires
        idx < u64::MAX,
    ensures
        match entry_spec((op.method, op.url@, opt_view(op.body)), idx as int) {
            Ok(e) => r && final(out)@ == old(out)@ + e,
            Err(_) => !r,
        },
{
    push_lit(out, "{\"id\":\"");
    let ghost a1 = "{\"id\":\"".spec_bytes();
    push_decimal(out, idx + 1);
    let ghost a2 = a1 + dec_spec((idx + 1) as nat);
    proof {
        assert(out@ =~= old(out)@ + a2);
    }
    push_lit(out, "\",\"method\":\"");
    let ghost a3 = a2 + "\",\"method\":\"".spec_bytes();
    proof {
        assert(out@ =~= old(out)@ + a3);
    }
    push_lit(out, op.method.as_ref());
    let ghost a4 = a3 + method_bytes(op.method);
    proof {
        assert(out@ =~= old(out)@ + a4);
    }
    push_lit(out, "\",\"url\":\"");
    let ghost a5 = a4 + "\",\"url\":\"".spec_bytes();
    proof {
        assert(out@ =~= old(out)@ + a5);
    }
    push_escaped(out, &op.url);
    let ghost a6 = a5 + esc_spec(op.url@);
    proof {
        assert(out@ =~= old(out)@ + a6);
    }
    push_lit(out, "\"");
    let ghost head = a6 + "\"".spec_bytes();
    proof {
        assert(out@ =~= old(out)@ + head);
    }
    match &op.body {
        None => {
            push_lit(out, "}");
            proof {
                assert(out@ =~= old(out)@ + (head + "}".spec_bytes()));
            }
            true
        },
        Some(b) => {
            match parse_json_canon(b) {
                None => false,
                Some(t) => {
                    push_lit(out, ",\"body\":");
                    let ghost a7 = head + ",\"body\":".spec_bytes();
                    proof {
                        assert(out@ =~= old(out)@ + a7);
                    }
                    append_bytes(out, &t);
                    let ghost a8 = a7 + t@;
                    proof {
                        assert(out@ =~= old(out)@ + a8);
                    }
                    push_lit(out, "}");
                    proof {
                        assert(out@ =~= old(out)@ + (a8 + "}".spec_bytes()));
                    }
                    true
                },
            }
        },
    }
}

/// The one compound request composed over an ordered sub-operation
/// list: a POST to the fixed batch path.
pub struct ComposedBatch {
    pub method: Method,
    pub path: Vec<u8>,
    pub body: Vec<u8>,
}

/// Serializes the ordered sub-operations as one JSON array body under
/// the fixed wrapper key, targeting the fixed batch endpoint. If any
/// entry's body fails to encode, the composition short-circuits to a
/// serialization failure and no request exists to issue.
#[verifier::rlimit(100)]
pub fn compose_batch(ops: &Vec<BatchOp>) -> (r: Result<ComposedBatch, Failure>)
    ensures
        match batch_body_spec(ops_view(*ops)) {
            Ok(b) => r is Ok && r->Ok_0.method == Method::Post && r->Ok_0.path@ == batch_path()
                && r->Ok_0.body@ == b,
            Err(e) => r is Err && r->Err_0@ == FailureModel::Serialization,
        },
{
    let ghost opsv = ops_view(*ops);
    let mut body: Vec<u8> = Vec::new();
    push_lit(&mut body, "{\"requests\":[");
    proof {
        assert(body@ =~= "{\"requests\":[".spec_bytes() + entries_spec(opsv, 0)->Ok_0);
    }
    let mut i: usize = 0;
    while i < ops.len()
        invariant
            i <= ops@.len(),
            opsv == ops_view(*ops),
            entries_spec(opsv, i as int) is Ok,
            body@ == "{\"requests\":[".spec_bytes() + entries_spec(opsv, i as int)->Ok_0,
        decreases ops@.len() - i,
    {
        let ghost done = entries_spec(opsv, i as int)->Ok_0;
        let ghost before = body@;
        proof {
            assert(opsv[i as int] == op_view(ops@[i as int]));
        }
        if i > 0 {
            push_lit(&mut body, ",");
        }
        let ghost sep: Seq<u8> = if i > 0 {
            ",".spec_bytes()
        } else {
            Seq::<u8>::empty()
        };
        proof {
            assert(body@ =~= before + sep);
        }
        let op = &ops[i];
        if !push_entry(&mut body, op, i as u64) {
            proof {
                lemma_entries_err(opsv, i as int, opsv.len() as int);
            }
            return Err(Failure::Serialization);
        }
        proof {
            let entry = entry_spec(opsv[i as int], i as int)->Ok_0;
            assert(entries_spec(opsv, i + 1) == Ok::<Seq<u8>, ()>(done + sep + entry));
            assert(body@ =~= "{\"requests\":[".spec_bytes() + (done + sep + entry));
        }
        i += 1;
    }
    push_lit(&mut body, "]}");
    proof {
        assert(body@ =~= batch_body_spec(opsv)->Ok_0);
    }
    Ok(ComposedBatch { method: Method::Post, path: seg_bytes("$batch"), body })
}

impl Graph {
    /// Composes the ordered `ops` into one compound request and stages
    /// it on this client: method POST, an Accept header for JSON, the
    /// composed array body, and the fixed batch path. If any entry
    /// fails to encode, the failure is surfaced at once, the state is
    /// untouched, and no request is issued at all.
    pub fn batch(&mut self, ops: &Vec<BatchOp>) -> (r: Result<(), Failure>)
        ensures
            match batch_body_spec(ops_view(*ops)) {
                Ok(b) => r is Ok && *final(self) == (Graph {
                    method: Method::Post,
                    headers: final(self).headers,
                    body: final(self).body,
                    url: (GraphUrl { path: final(self).url.path, ..old(self).url }),
                    ..*old(self)
                }) && pairs_view(final(self).headers) == pairs_view(old(self).headers).push(
                    (accept_key(), accept_json()),
                ) && opt_view(final(self).body) == Some(b) && final(self).url.path@
                    == batch_path(),
                Err(_) => r is Err && r->Err_0@ == FailureModel::Serialization && *final(self)
                    == *old(self),
            },
    {
        match compose_batch(ops) {
            Err(f) => Err(f),
            Ok(cb) => {
                self.set_method(Method::Post);
                self.header(seg_bytes("Accept"), seg_bytes("application/json"));
                self.set_body(cb.body);
                self.url.path = cb.path;
                proof {
                    assert(pairs_view(self.headers) =~= pairs_view(old(self).headers).push(
                        (accept_key(), accept_json()),
                    ));
                }
                Ok(())
            },
        }
    }
}

} // verus!
