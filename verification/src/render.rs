use vstd::prelude::*;
use vstd::string::StringSliceAdditionalSpecFns;

verus! {

/// Byte values of the characters that the template grammar reads.
pub const LBRACE: u8 = 123;

pub const RBRACE: u8 = 125;

pub const UC_R: u8 = 82;

pub const UC_I: u8 = 73;

pub const UC_D: u8 = 68;

pub const LC_I: u8 = 105;

pub const LC_D: u8 = 100;

pub const DIGIT_0: u8 = 48;

pub const DIGIT_9: u8 = 57;

/// A violation of the template contract, detected while resolving a
/// path template and surfaced before any request is issued.
#[derive(Clone, Copy, PartialEq, Eq, Structural, Debug)]
pub enum TemplateViolation {
    /// The template references `{{RID}}` but no resource id is bound.
    RidUnbound,
    /// A positional placeholder found the supplied id list exhausted.
    MissingPositionalId,
    /// More positional ids were supplied than the template consumes.
    SurplusPositionalIds,
    /// A named placeholder is absent from the scope's variable table.
    UnknownVariable,
    /// An opening `{{` has no closing `}}`.
    UnclosedPlaceholder,
}

/// Two closing braces stand at position `i`.
pub open spec fn close_at(t: Seq<u8>, i: int) -> bool {
    t[i] == RBRACE && t[i + 1] == RBRACE
}

/// Position of the first `}}` in `t`, if any.
pub open spec fn first_close(t: Seq<u8>) -> Option<int>
    decreases t.len(),
{
    if t.len() < 2 {
        None
    } else if close_at(t, 0) {
        Some(0)
    } else {
        match first_close(t.skip(1)) {
            None => None,
            Some(k) => Some(k + 1),
        }
    }
}

/// `first_close` returns the least position of a `}}`, and `None`
/// exactly when there is none.
pub proof fn lemma_first_close(t: Seq<u8>)
    ensures
        match first_close(t) {
            None => forall|i: int| 0 <= i < t.len() - 1 ==> !close_at(t, i),
            Some(k) => 0 <= k <= t.len() - 2 && close_at(t, k) && (forall|i: int|
                0 <= i < k ==> !close_at(t, i)),
        },
    decreases t.len(),
{
    if t.len() < 2 {
    } else if close_at(t, 0) {
    } else {
        lemma_first_close(t.skip(1));
        assert forall|i: int| 1 <= i < t.len() - 1 implies close_at(t, i) == close_at(
            t.skip(1),
            i - 1,
        ) by {
            assert(t.skip(1)[i - 1] == t[i]);
            assert(t.skip(1)[i] == t[i + 1]);
        }
    }
}

/// The reserved placeholder name that resolves to the bound resource id.
pub open spec fn is_rid_name(name: Seq<u8>) -> bool {
    name.len() == 3 && name[0] == UC_R && name[1] == UC_I && name[2] == UC_D
}

pub open spec fn is_digit(b: u8) -> bool {
    DIGIT_0 <= b <= DIGIT_9
}

/// A positional placeholder name: `id`, `id2`, `id3`, ...
pub open spec fn is_positional_name(name: Seq<u8>) -> bool {
    name.len() >= 2 && name[0] == LC_I && name[1] == LC_D && (forall|i: int|
        2 <= i < name.len() ==> is_digit(#[trigger] name[i]))
}

/// First value bound to `name` in the scope's named-variable table.
pub open spec fn lookup_var(vars: Seq<(Seq<u8>, Seq<u8>)>, name: Seq<u8>) -> Option<Seq<u8>>
    decreases vars.len(),
{
    if vars.len() == 0 {
        None
    } else if vars[0].0 == name {
        Some(vars[0].1)
    } else {
        lookup_var(vars.skip(1), name)
    }
}

/// Resolves one placeholder name in priority order: the resource
/// binding first, then the next unconsumed positional id, then the
/// scope's named variables. Returns the substituted text and the
/// positional ids still unconsumed.
pub open spec fn resolve_placeholder(
    name: Seq<u8>,
    rid: Option<Seq<u8>>,
    pos: Seq<Seq<u8>>,
    vars: Seq<(Seq<u8>, Seq<u8>)>,
) -> Result<(Seq<u8>, Seq<Seq<u8>>), TemplateViolation> {
    if is_rid_name(name) {
        match rid {
            None => Err(TemplateViolation::RidUnbound),
            Some(r) => Ok((r, pos)),
        }
    } else if is_positional_name(name) {
        if pos.len() == 0 {
            Err(TemplateViolation::MissingPositionalId)
        } else {
            Ok((pos[0], pos.skip(1)))
        }
    } else {
        match lookup_var(vars, name) {
            None => Err(TemplateViolation::UnknownVariable),
            Some(v) => Ok((v, pos)),
        }
    }
}

/// Left-to-right resolution of a template: literal bytes are copied,
/// each `{{name}}` is replaced by its resolution. Returns the rendered
/// bytes and the positional ids left unconsumed.
pub open spec fn render_rec(
    t: Seq<u8>,
    rid: Option<Seq<u8>>,
    pos: Seq<Seq<u8>>,
    vars: Seq<(Seq<u8>, Seq<u8>)>,
) -> Result<(Seq<u8>, Seq<Seq<u8>>), TemplateViolation>
    decreases t.len(),
    via render_rec_decreases
{
    if t.len() == 0 {
        Ok((Seq::empty(), pos))
    } else if t.len() >= 2 && t[0] == LBRACE && t[1] == LBRACE {
        match first_close(t.skip(2)) {
            None => Err(TemplateViolation::UnclosedPlaceholder),
            Some(k) => {
                let name = t.skip(2).take(k);
                let rest = t.skip(2).skip(k + 2);
                match resolve_placeholder(name, rid, pos, vars) {
                    Err(e) => Err(e),
                    Ok((val, pos2)) => match render_rec(rest, rid, pos2, vars) {
                        Err(e) => Err(e),
                        Ok((out, pos3)) => Ok((val + out, pos3)),
                    },
                }
            },
        }
    } else {
        match render_rec(t.skip(1), rid, pos, vars) {
            Err(e) => Err(e),
            Ok((out, pos2)) => Ok((seq![t[0]] + out, pos2)),
        }
    }
}

#[via_fn]
proof fn render_rec_decreases(
    t: Seq<u8>,
    rid: Option<Seq<u8>>,
    pos: Seq<Seq<u8>>,
    vars: Seq<(Seq<u8>, Seq<u8>)>,
) {
    if t.len() >= 2 && t[0] == LBRACE && t[1] == LBRACE {
        lemma_first_close(t.skip(2));
    }
}

/// Full rendering of a template: resolution must consume the supplied
/// positional ids exactly; a surplus is a contract violation too.
pub open spec fn render_spec(
    t: Seq<u8>,
    rid: Option<Seq<u8>>,
    pos: Seq<Seq<u8>>,
    vars: Seq<(Seq<u8>, Seq<u8>)>,
) -> Result<Seq<u8>, TemplateViolation> {
    match render_rec(t, rid, pos, vars) {
        Err(e) => Err(e),
        Ok((out, rem)) => if rem.len() == 0 {
            Ok(out)
        } else {
            Err(TemplateViolation::SurplusPositionalIds)
        },
    }
}

/// The template parses a `{{RID}}` placeholder somewhere.
pub open spec fn template_uses_rid(t: Seq<u8>) -> bool
    decreases t.len(),
    via template_uses_rid_decreases
{
    if t.len() == 0 {
        false
    } else if t.len() >= 2 && t[0] == LBRACE && t[1] == LBRACE {
        match first_close(t.skip(2)) {
            None => false,
            Some(k) => is_rid_name(t.skip(2).take(k)) || template_uses_rid(t.skip(2).skip(k + 2)),
        }
    } else {
        template_uses_rid(t.skip(1))
    }
}

#[via_fn]
proof fn template_uses_rid_decreases(t: Seq<u8>) {
    if t.len() >= 2 && t[0] == LBRACE && t[1] == LBRACE {
        lemma_first_close(t.skip(2));
    }
}

/// Law: a template that uses `{{RID}}` renders to a template-contract
/// violation whenever no resource id is bound — never to a path with
/// an empty segment in the binding's place.
pub proof fn lemma_rid_unbound_is_violation(
    t: Seq<u8>,
    pos: Seq<Seq<u8>>,
    vars: Seq<(Seq<u8>, Seq<u8>)>,
)
    requires
        template_uses_rid(t),
    ensures
        render_spec(t, None, pos, vars) is Err,
    decreases t.len(),
{
    if t.len() >= 2 && t[0] == LBRACE && t[1] == LBRACE {
        lemma_first_close(t.skip(2));
        match first_close(t.skip(2)) {
            None => {},
            Some(k) => {
                let name = t.skip(2).take(k);
                let rest = t.skip(2).skip(k + 2);
                if !is_rid_name(name) {
                    match resolve_placeholder(name, None, pos, vars) {
                        Err(_) => {},
                        Ok((val, pos2)) => {
                            lemma_rid_unbound_is_violation(rest, pos2, vars);
                        },
                    }
                }
            },
        }
    } else if t.len() > 0 {
        lemma_rid_unbound_is_violation(t.skip(1), pos, vars);
    }
}

/// View of an optional resource binding.
pub open spec fn opt_view(o: Option<Vec<u8>>) -> Option<Seq<u8>> {
    match o {
        None => None,
        Some(v) => Some(v@),
    }
}

/// View of a list of byte strings (positional ids, collection items).
pub open spec fn seqs_view(v: Vec<Vec<u8>>) -> Seq<Seq<u8>> {
    v@.map_values(|x: Vec<u8>| x@)
}

/// View of a list of byte-string pairs (named variables, headers).
pub open spec fn pairs_view(v: Vec<(Vec<u8>, Vec<u8>)>) -> Seq<(Seq<u8>, Seq<u8>)> {
    v@.map_values(|p: (Vec<u8>, Vec<u8>)| (p.0@, p.1@))
}

/// Appends the bytes of a fixed piece of syntax.
pub(crate) fn push_lit(out: &mut Vec<u8>, s: &str)
    ensures
        final(out)@ == old(out)@ + s.spec_bytes(),
{
    let bs = s.as_bytes();
    let mut j: usize = 0;
    while j < bs.len()
        invariant
            j <= bs@.len(),
            bs@ == s.spec_bytes(),
            out@ == old(out)@ + bs@.take(j as int),
        decreases bs@.len() - j,
    {
        out.push(bs[j]);
        proof {
            assert(bs@.take(j + 1) =~= bs@.take(j as int).push(bs@[j as int]));
        }
        j += 1;
    }
    proof {
        assert(bs@.take(bs@.len() as int) =~= bs@);
    }
}

/// Appends all of `src` onto `out`.
pub fn append_bytes(out: &mut Vec<u8>, src: &Vec<u8>)
    ensures
        final(out)@ == old(out)@ + src@,
{
    let mut j: usize = 0;
    while j < src.len()
        invariant
            j <= src@.len(),
            out@ == old(out)@ + src@.take(j as int),
        decreases src@.len() - j,
    {
        out.push(src[j]);
        proof {
            assert(src@.take(j + 1) =~= src@.take(j as int).push(src@[j as int]));
        }
        j += 1;
    }
    proof {
        assert(src@.take(src@.len() as int) =~= src@);
    }
}

/// Finds the first `}}` at or after `from`.
fn find_close(t: &Vec<u8>, from: usize) -> (r: Option<usize>)
    requires
        from <= t@.len(),
    ensures
        match r {
            None => first_close(t@.skip(from as int)) is None,
            Some(k) => from <= k && k + 2 <= t@.len() && first_close(t@.skip(from as int))
                == Some(k - from as int),
        },
{
    let ghost s = t@.skip(from as int);
    let mut i: usize = from;
    loop
        invariant
            from <= i <= t@.len(),
            s == t@.skip(from as int),
            forall|j: int| from <= j < i ==> !close_at(t@, j),
        decreases t@.len() - i,
    {
        if t.len() - i < 2 {
            proof {
                lemma_first_close(s);
                if let Some(k) = first_close(s) {
                    assert(s[k] == t@[from + k]);
                    assert(s[k + 1] == t@[from + k + 1]);
                    assert(close_at(t@, from + k));
                    assert(false);
                }
            }
            return None;
        }
        if t[i] == RBRACE && t[i + 1] == RBRACE {
            proof {
                lemma_first_close(s);
                assert(close_at(t@, i as int));
                let d = i - from;
                assert(s[d] == t@[i as int]);
                assert(s[d + 1] == t@[i + 1]);
                assert(close_at(s, d));
                match first_close(s) {
                    None => {
                        assert(false);
                    },
                    Some(k) => {
                        assert(s[k] == t@[from + k]);
                        assert(s[k + 1] == t@[from + k + 1]);
                        assert(close_at(t@, from + k));
                        assert(!(from + k < i));
                        assert(!(k < d));
                        assert(k == d);
                    },
                }
            }
            return Some(i);
        }
        i += 1;
    }
}

/// Byte-for-byte equality of two byte vectors.
pub fn bytes_eq(a: &Vec<u8>, b: &Vec<u8>) -> (r: bool)
    ensures
        r == (a@ == b@),
{
    if a.len() != b.len() {
        return false;
    }
    let mut j: usize = 0;
    while j < a.len()
        invariant
            j <= a@.len(),
            a@.len() == b@.len(),
            forall|m: int| 0 <= m < j ==> a@[m] == b@[m],
        decreases a@.len() - j,
    {
        if a[j] != b[j] {
            return false;
        }
        j += 1;
    }
    proof {
        assert(a@ =~= b@);
    }
    true
}

/// Does `key` equal the bytes of `t` between `lo` and `hi`?
fn key_matches(t: &Vec<u8>, lo: usize, hi: usize, key: &Vec<u8>) -> (r: bool)
    requires
        lo <= hi <= t@.len(),
    ensures
        r == (key@ == t@.subrange(lo as int, hi as int)),
{
    let ghost name = t@.subrange(lo as int, hi as int);
    if key.len() != hi - lo {
        proof {
            assert(name.len() == hi - lo);
        }
        return false;
    }
    let mut j: usize = 0;
    while j < key.len()
        invariant
            j <= key@.len(),
            key@.len() == hi - lo,
            lo <= hi <= t@.len(),
            name == t@.subrange(lo as int, hi as int),
            forall|m: int| 0 <= m < j ==> key@[m] == name[m],
        decreases key@.len() - j,
    {
        if key[j] != t[lo + j] {
            proof {
                assert(name[j as int] == t@[lo + j]);
            }
            return false;
        }
        j += 1;
    }
    proof {
        assert(key@ =~= name);
    }
    true
}

/// Looks the name between `lo` and `hi` up in the scope's variable
/// table and appends the first bound value onto `out`; reports whether
/// the name was bound at all.
fn append_var(
    t: &Vec<u8>,
    lo: usize,
    hi: usize,
    vars: &Vec<(Vec<u8>, Vec<u8>)>,
    out: &mut Vec<u8>,
) -> (r: bool)
    requires
        lo <= hi <= t@.len(),
    ensures
        match lookup_var(pairs_view(*vars), t@.subrange(lo as int, hi as int)) {
            None => !r && final(out)@ == old(out)@,
            Some(v) => r && final(out)@ == old(out)@ + v,
        },
{
    let ghost name = t@.subrange(lo as int, hi as int);
    proof {
        assert(pairs_view(*vars).skip(0) =~= pairs_view(*vars));
    }
    let mut v: usize = 0;
    loop
        invariant
            v <= vars@.len(),
            lo <= hi <= t@.len(),
            name == t@.subrange(lo as int, hi as int),
            out@ == old(out)@,
            lookup_var(pairs_view(*vars), name) == lookup_var(
                pairs_view(*vars).skip(v as int),
                name,
            ),
        decreases vars@.len() - v,
    {
        if v == vars.len() {
            proof {
                assert(pairs_view(*vars).skip(v as int).len() == 0);
            }
            return false;
        }
        proof {
            assert(pairs_view(*vars).skip(v as int)[0] == (vars@[v as int].0@, vars@[v as int].1@));
        }
        if key_matches(t, lo, hi, &vars[v].0) {
            append_bytes(out, &vars[v].1);
            return true;
        }
        proof {
            assert(pairs_view(*vars).skip(v as int).skip(1) =~= pairs_view(*vars).skip(v + 1));
        }
        v += 1;
    }
}

/// Is the name between `lo` and `hi` the reserved `RID`?
fn rid_name_at(t: &Vec<u8>, lo: usize, hi: usize) -> (r: bool)
    requires
        lo <= hi <= t@.len(),
    ensures
        r == is_rid_name(t@.subrange(lo as int, hi as int)),
{
    hi - lo == 3 && t[lo] == UC_R && t[lo + 1] == UC_I && t[lo + 2] == UC_D
}

/// Is the name between `lo` and `hi` a positional placeholder?
fn positional_name_at(t: &Vec<u8>, lo: usize, hi: usize) -> (r: bool)
    requires
        lo <= hi <= t@.len(),
    ensures
        r == is_positional_name(t@.subrange(lo as int, hi as int)),
{
    let ghost name = t@.subrange(lo as int, hi as int);
    if hi - lo < 2 || t[lo] != LC_I || t[lo + 1] != LC_D {
        return false;
    }
    let mut j: usize = lo + 2;
    while j < hi
        invariant
            lo + 2 <= j <= hi <= t@.len(),
            name == t@.subrange(lo as int, hi as int),
            forall|m: int| 2 <= m < j - lo ==> is_digit(#[trigger] name[m]),
        decreases hi - j,
    {
        if t[j] < DIGIT_0 || t[j] > DIGIT_9 {
            proof {
                assert(name[j - lo] == t@[j as int]);
            }
            return false;
        }
        proof {
            assert(name[j - lo] == t@[j as int]);
        }
        j += 1;
    }
    true
}

/// Renders the tail of the template that starts at `i`, appending onto
/// `out`; `pidx` is the count of positional ids consumed so far.
fn render_from(
    t: &Vec<u8>,
    i: usize,
    rid: &Option<Vec<u8>>,
    pos: &Vec<Vec<u8>>,
    pidx: usize,
    vars: &Vec<(Vec<u8>, Vec<u8>)>,
    out: &mut Vec<u8>,
) -> (r: Result<usize, TemplateViolation>)
    requires
        i <= t@.len(),
        pidx <= pos@.len(),
    ensures
        match render_rec(t@.skip(i as int), opt_view(*rid), seqs_view(*pos).skip(pidx as int),
            pairs_view(*vars)) {
            Ok((o, rem)) => r is Ok && pidx <= r->Ok_0 <= pos@.len() && final(out)@ == old(out)@
                + o && rem == seqs_view(*pos).skip(r->Ok_0 as int),
            Err(e) => r == Err::<usize, TemplateViolation>(e),
        },
    decreases t@.len() - i,
{
    let ghost tail = t@.skip(i as int);
    let ghost rem0 = seqs_view(*pos).skip(pidx as int);
    if i == t.len() {
        proof {
            assert(tail.len() == 0);
        }
        return Ok(pidx);
    }
    if i + 1 < t.len() && t[i] == LBRACE && t[i + 1] == LBRACE {
        proof {
            assert(tail[0] == t@[i as int]);
            assert(tail[1] == t@[i + 1]);
        }
        match find_close(t, i + 2) {
            None => {
                proof {
                    assert(tail.skip(2) =~= t@.skip(i + 2));
                }
                Err(TemplateViolation::UnclosedPlaceholder)
            },
            Some(c) => {
                let ghost k = c - (i + 2);
                proof {
                    assert(tail.skip(2) =~= t@.skip(i + 2));
                    assert(first_close(tail.skip(2)) == Some(k));
                    assert(tail.skip(2).take(k) =~= t@.subrange(i + 2, c as int));
                    assert(tail.skip(2).skip(k + 2) =~= t@.skip(c + 2));
                }
                let ghost name = t@.subrange(i + 2, c as int);
                let mut pidx2: usize = pidx;
                if rid_name_at(t, i + 2, c) {
                    match rid {
                        None => {
                            return Err(TemplateViolation::RidUnbound);
                        },
                        Some(rv) => {
                            append_bytes(out, rv);
                        },
                    }
                } else if positional_name_at(t, i + 2, c) {
                    if pidx == pos.len() {
                        proof {
                            assert(rem0.len() == 0);
                        }
                        return Err(TemplateViolation::MissingPositionalId);
                    }
                    append_bytes(out, &pos[pidx]);
                    proof {
                        assert(rem0[0] == seqs_view(*pos)[pidx as int]);
                        assert(rem0.skip(1) =~= seqs_view(*pos).skip(pidx + 1));
                    }
                    pidx2 = pidx + 1;
                } else {
                    if !append_var(t, i + 2, c, vars, out) {
                        return Err(TemplateViolation::UnknownVariable);
                    }
                }
                let res = render_from(t, c + 2, rid, pos, pidx2, vars, out);
                proof {
                    if let Ok((o2, rem2)) = render_rec(t@.skip(c + 2), opt_view(*rid),
                        seqs_view(*pos).skip(pidx2 as int), pairs_view(*vars)) {
                        if let Ok((o, rem)) = render_rec(tail, opt_view(*rid), rem0,
                            pairs_view(*vars)) {
                            assert(out@ =~= old(out)@ + o);
                        }
                    }
                }
                res
            },
        }
    } else {
        proof {
            assert(tail[0] == t@[i as int]);
            assert(tail.skip(1) =~= t@.skip(i + 1));
        }
        out.push(t[i]);
        let res = render_from(t, i + 1, rid, pos, pidx, vars, out);
        proof {
            if let Ok((o2, rem2)) = render_rec(t@.skip(i + 1), opt_view(*rid), rem0, pairs_view(
                *vars,
            )) {
                assert(out@ =~= old(out)@ + (seq![tail[0]] + o2));
            }
        }
        res
    }
}

/// Resolves `t` against the bound resource id `rid`, the positional
/// ids `pos` (consumed left to right, and consumed exactly), and the
/// scope's named-variable table `vars`. The result is pinned to
/// [`render_spec`] on every input.
pub fn render(
    t: &Vec<u8>,
    rid: &Option<Vec<u8>>,
    pos: &Vec<Vec<u8>>,
    vars: &Vec<(Vec<u8>, Vec<u8>)>,
) -> (r: Result<Vec<u8>, TemplateViolation>)
    ensures
        match render_spec(t@, opt_view(*rid), seqs_view(*pos), pairs_view(*vars)) {
            Ok(o) => r is Ok && r->Ok_0@ == o,
            Err(e) => r == Err::<Vec<u8>, TemplateViolation>(e),
        },
{
    let mut out: Vec<u8> = Vec::new();
    proof {
        assert(t@.skip(0) =~= t@);
        assert(seqs_view(*pos).skip(0) =~= seqs_view(*pos));
    }
    match render_from(t, 0, rid, pos, 0, vars, &mut out) {
        Err(e) => Err(e),
        Ok(consumed) => {
            if consumed == pos.len() {
                Ok(out)
            } else {
                Err(TemplateViolation::SurplusPositionalIds)
            }
        },
    }
}

} // verus!
