//! The persisted history format.
//!
//! An organization run is recorded in a single JSON-like document:
//! an object holding the `timestamp`, the `base_path`, and the ordered
//! `operations` array of `{original_path, new_path, category}` records.
//! Quotes and backslashes inside string values are escaped with a
//! backslash; every other character stands for itself.
//!
//! Rendering and parsing are both defined here, over the character
//! sequences of the document, and parsing a rendered log yields the log
//! back (`lemma_history_round_trip`).

use vstd::prelude::*;

use crate::file_organizer::OperationLog;
use crate::file_organizer::Operation;
use crate::file_organizer::OrganizeError;

verus! {

/// The escaped form of one character inside a quoted string.
pub open spec fn spec_escape_char(c: char) -> Seq<char> {
    if c == '"' {
        seq!['\\', '"']
    } else if c == '\\' {
        seq!['\\', '\\']
    } else {
        seq![c]
    }
}

/// The escaped form of a whole string value.
pub open spec fn spec_escape(s: Seq<char>) -> Seq<char>
    decreases s.len(),
{
    if s.len() == 0 {
        Seq::empty()
    } else {
        spec_escape_char(s[0]) + spec_escape(s.drop_first())
    }
}

/// Escaping one more character at the end appends its escaped form.
pub proof fn lemma_escape_snoc(s: Seq<char>, c: char)
    ensures
        spec_escape(s.push(c)) == spec_escape(s) + spec_escape_char(c),
    decreases s.len(),
{
    if s.len() == 0 {
        assert(s.push(c).drop_first() =~= Seq::<char>::empty());
        assert(s.push(c)[0] == c);
        assert(spec_escape(Seq::<char>::empty()) == Seq::<char>::empty());
        assert(spec_escape(s.push(c)) == spec_escape_char(c) + spec_escape(Seq::<char>::empty()));
        assert(spec_escape(s.push(c)) =~= spec_escape(s) + spec_escape_char(c));
    } else {
        assert(s.push(c)[0] == s[0]);
        assert(s.push(c).drop_first() =~= s.drop_first().push(c));
        lemma_escape_snoc(s.drop_first(), c);
        assert(spec_escape(s.push(c)) =~= spec_escape(s) + spec_escape_char(c));
    }
}

/// Escapes a string value for embedding between quotes.
pub fn escape_string(s: &str) -> (r: String)
    ensures
        r@ == spec_escape(s@),
{
    let len = s.unicode_len();
    let mut out = String::new();
    let mut i: usize = 0;
    proof {
        assert(s@.take(0) =~= Seq::<char>::empty());
    }
    while i < len
        invariant
            i <= len,
            len == s@.len(),
            out@ == spec_escape(s@.take(i as int)),
        decreases len - i,
    {
        let c = s.get_char(i);
        if c == '"' {
            out.append("\\\"");
            proof {
                reveal_strlit("\\\"");
                assert("\\\""@ =~= spec_escape_char(c));
            }
        } else if c == '\\' {
            out.append("\\\\");
            proof {
                reveal_strlit("\\\\");
                assert("\\\\"@ =~= spec_escape_char(c));
            }
        } else {
            let piece = s.substring_char(i, i + 1);
            out.append(piece);
            proof {
                assert(piece@ =~= spec_escape_char(c));
            }
        }
        proof {
            lemma_escape_snoc(s@.take(i as int), c);
            assert(s@.take(i as int).push(c) =~= s@.take(i as int + 1));
        }
        i += 1;
    }
    proof {
        assert(s@.take(len as int) =~= s@);
    }
    out
}

/// Reads a string value starting at `i`, undoing the escapes, and stops
/// in front of the closing quote.  Yields the value and the position of
/// that quote, or nothing when the text is not a well-formed value.
pub open spec fn spec_parse_string_body(s: Seq<char>, i: int) -> Option<(Seq<char>, int)>
    decreases s.len() - i,
{
    if i < 0 || i >= s.len() {
        None
    } else if s[i] == '"' {
        Some((Seq::empty(), i))
    } else if s[i] == '\\' {
        if i + 1 < s.len() && (s[i + 1] == '"' || s[i + 1] == '\\') {
            match spec_parse_string_body(s, i + 2) {
                Some((rest, j)) => Some((seq![s[i + 1]] + rest, j)),
                None => None,
            }
        } else {
            None
        }
    } else {
        match spec_parse_string_body(s, i + 1) {
            Some((rest, j)) => Some((seq![s[i]] + rest, j)),
            None => None,
        }
    }
}

/// Reading an escaped value back yields the value: at a position where
/// the text holds `spec_escape(x)` followed by a quote, the string-body
/// parser returns `x` and stops at that quote.
pub proof fn lemma_parse_escape(s: Seq<char>, i: int, x: Seq<char>)
    requires
        0 <= i,
        i + spec_escape(x).len() < s.len(),
        s.subrange(i, i + spec_escape(x).len() as int) == spec_escape(x),
        s[i + spec_escape(x).len() as int] == '"',
    ensures
        spec_parse_string_body(s, i) == Some((x, i + spec_escape(x).len() as int)),
    decreases x.len(),
{
    let e = spec_escape(x);
    if x.len() == 0 {
        assert(s[i] == '"');
    } else {
        let c = x[0];
        let ec = spec_escape_char(c);
        let rest = x.drop_first();
        let erest = spec_escape(rest);
        assert(e == ec + erest);
        assert(forall|k: int| 0 <= k < e.len() ==> s[i + k] == e[k]);
        assert(forall|k: int| 0 <= k < ec.len() ==> e[k] == ec[k]);
        assert(forall|k: int| 0 <= k < erest.len() ==> e[ec.len() + k] == erest[k]);
        let j = i + ec.len();
        assert(s.subrange(j, j + erest.len() as int) =~= erest);
        lemma_parse_escape(s, j, rest);
        assert(seq![c] + rest =~= x);
        if c == '"' {
            assert(s[i] == '\\' && s[i + 1] == '"');
        } else if c == '\\' {
            assert(s[i] == '\\' && s[i + 1] == '\\');
        } else {
            assert(s[i] == c);
        }
    }
}

/// Reads one string value, returning it with the position of its closing
/// quote.
fn parse_string_body(s: &str, i: usize) -> (r: Option<(String, usize)>)
    ensures
        match r {
            Some(p) => spec_parse_string_body(s@, i as int) == Some((p.0@, p.1 as int)),
            None => spec_parse_string_body(s@, i as int) is None,
        },
    decreases s@.len() - i,
{
    let len = s.unicode_len();
    if i >= len {
        return None;
    }
    let c = s.get_char(i);
    if c == '"' {
        Some((String::new(), i))
    } else if c == '\\' {
        if i + 1 < len {
            let c2 = s.get_char(i + 1);
            if c2 == '"' || c2 == '\\' {
                match parse_string_body(s, i + 2) {
                    Some((rest, j)) => {
                        let mut out = s.substring_char(i + 1, i + 2).to_owned();
                        out.append(rest.as_str());
                        proof {
                            assert(out@ =~= seq![s@[i + 1]] + rest@);
                        }
                        Some((out, j))
                    },
                    None => None,
                }
            } else {
                None
            }
        } else {
            None
        }
    } else {
        match parse_string_body(s, i + 1) {
            Some((rest, j)) => {
                let mut out = s.substring_char(i, i + 1).to_owned();
                out.append(rest.as_str());
                proof {
                    assert(out@ =~= seq![s@[i as int]] + rest@);
                }
                Some((out, j))
            },
            None => None,
        }
    }
}

/// A literal token is present at `i`: the text continues with exactly
/// `lit`, and the position after it is returned.
pub open spec fn spec_expect(s: Seq<char>, i: int, lit: Seq<char>) -> Option<int> {
    if 0 <= i && i + lit.len() <= s.len() && s.subrange(i, i + lit.len() as int) == lit {
        Some(i + lit.len() as int)
    } else {
        None
    }
}

/// Checks for a literal token at `i`.
fn expect_lit(s: &str, i: usize, lit: &str) -> (r: Option<usize>)
    ensures
        match r {
            Some(j) => spec_expect(s@, i as int, lit@) == Some(j as int),
            None => spec_expect(s@, i as int, lit@) is None,
        },
{
    let slen = s.unicode_len();
    let llen = lit.unicode_len();
    if i > slen || llen > slen - i {
        return None;
    }
    let mut k: usize = 0;
    while k < llen
        invariant
            k <= llen,
            i + llen <= slen,
            slen == s@.len(),
            llen == lit@.len(),
            forall|m: int| 0 <= m < k ==> s@[i + m] == lit@[m],
        decreases llen - k,
    {
        if s.get_char(i + k) != lit.get_char(k) {
            proof {
                assert(s@.subrange(i as int, i as int + lit@.len() as int)[k as int] != lit@[
                    k as int
                ]);
            }
            return None;
        }
        k += 1;
    }
    proof {
        assert(s@.subrange(i as int, i as int + lit@.len() as int) =~= lit@);
    }
    Some(i + llen)
}

/// Looks at the character at `i`, if the text is that long.
fn peek_char(s: &str, i: usize) -> (r: Option<char>)
    ensures
        match r {
            Some(c) => i < s@.len() && s@[i as int] == c,
            None => i >= s@.len(),
        },
{
    if i < s.unicode_len() {
        Some(s.get_char(i))
    } else {
        None
    }
}

/// The token opening the document and the timestamp value.
pub open spec fn lit_timestamp() -> Seq<char> {
    "{\"timestamp\":\""@
}

/// The token between the timestamp and the base path values.
pub open spec fn lit_base_path() -> Seq<char> {
    "\",\"base_path\":\""@
}

/// The token between the base path and the operations array.
pub open spec fn lit_operations() -> Seq<char> {
    "\",\"operations\":["@
}

/// The token opening an operation record and its original path.
pub open spec fn lit_op_original() -> Seq<char> {
    "{\"original_path\":\""@
}

/// The token between an operation's original and new paths.
pub open spec fn lit_op_new() -> Seq<char> {
    "\",\"new_path\":\""@
}

/// The token between an operation's new path and its category.
pub open spec fn lit_op_category() -> Seq<char> {
    "\",\"category\":\""@
}

/// The token closing an operation record.
pub open spec fn lit_op_end() -> Seq<char> {
    "\"}"@
}

/// The token closing the document.
pub open spec fn lit_doc_end() -> Seq<char> {
    "}"@
}

/// The three string values of one operation record: original path, new
/// path, category.
pub type OpView = (Seq<char>, Seq<char>, Seq<char>);

/// The values of an operation record.
pub open spec fn op_view(op: Operation) -> OpView {
    (op.original_path@, op.new_path@, op.category@)
}

/// The values of a sequence of operation records.
pub open spec fn ops_views(ops: Seq<Operation>) -> Seq<OpView> {
    ops.map_values(|op: Operation| op_view(op))
}

/// The rendering of one operation record.
pub open spec fn spec_render_op(op: OpView) -> Seq<char> {
    lit_op_original() + spec_escape(op.0) + lit_op_new() + spec_escape(op.1) + lit_op_category()
        + spec_escape(op.2) + lit_op_end()
}

/// The rendering of the operations from index `k` on, each preceded by a
/// comma.
pub open spec fn spec_render_ops_tail(ops: Seq<OpView>, k: int) -> Seq<char>
    decreases ops.len() - k,
{
    if k < 0 || k >= ops.len() {
        Seq::empty()
    } else {
        seq![','] + spec_render_op(ops[k]) + spec_render_ops_tail(ops, k + 1)
    }
}

/// The rendering of the whole operations array body.
pub open spec fn spec_render_ops(ops: Seq<OpView>) -> Seq<char> {
    if ops.len() == 0 {
        Seq::empty()
    } else {
        spec_render_op(ops[0]) + spec_render_ops_tail(ops, 1)
    }
}

/// The rendering of a whole history document.
pub open spec fn spec_render_history(ts: Seq<char>, bp: Seq<char>, ops: Seq<OpView>) -> Seq<char> {
    lit_timestamp() + spec_escape(ts) + lit_base_path() + spec_escape(bp) + lit_operations()
        + spec_render_ops(ops) + seq![']'] + lit_doc_end()
}

/// Reads one operation record starting at `i`.
pub open spec fn spec_parse_op(s: Seq<char>, i: int) -> Option<(OpView, int)> {
    match spec_expect(s, i, lit_op_original()) {
        None => None,
        Some(i1) => match spec_parse_string_body(s, i1) {
            None => None,
            Some((a, i2)) => match spec_expect(s, i2, lit_op_new()) {
                None => None,
                Some(i3) => match spec_parse_string_body(s, i3) {
                    None => None,
                    Some((b, i4)) => match spec_expect(s, i4, lit_op_category()) {
                        None => None,
                        Some(i5) => match spec_parse_string_body(s, i5) {
                            None => None,
                            Some((c, i6)) => match spec_expect(s, i6, lit_op_end()) {
                                None => None,
                                Some(i7) => Some(((a, b, c), i7)),
                            },
                        },
                    },
                },
            },
        },
    }
}

/// Reads the rest of the operations array after its first record: either
/// the closing bracket, or a comma and another record, repeatedly.
pub open spec fn spec_parse_more_ops(s: Seq<char>, i: int) -> Option<(Seq<OpView>, int)>
    decreases s.len() - i,
{
    if i < 0 || i >= s.len() {
        None
    } else if s[i] == ']' {
        Some((Seq::empty(), i + 1))
    } else if s[i] == ',' {
        match spec_parse_op(s, i + 1) {
            None => None,
            Some((op, j)) => if i < j && j <= s.len() {
                match spec_parse_more_ops(s, j) {
                    None => None,
                    Some((rest, k)) => Some((seq![op] + rest, k)),
                }
            } else {
                None
            },
        }
    } else {
        None
    }
}

/// Reads the whole operations array body, from just after the opening
/// bracket through the closing one.
pub open spec fn spec_parse_ops(s: Seq<char>, i: int) -> Option<(Seq<OpView>, int)> {
    if i < 0 || i >= s.len() {
        None
    } else if s[i] == ']' {
        Some((Seq::empty(), i + 1))
    } else {
        match spec_parse_op(s, i) {
            None => None,
            Some((op, j)) => match spec_parse_more_ops(s, j) {
                None => None,
                Some((rest, k)) => Some((seq![op] + rest, k)),
            },
        }
    }
}

/// Reads a whole history document; the text must be exactly one
/// document.
pub open spec fn spec_parse_history(s: Seq<char>) -> Option<(Seq<char>, Seq<char>, Seq<OpView>)> {
    match spec_expect(s, 0, lit_timestamp()) {
        None => None,
        Some(i1) => match spec_parse_string_body(s, i1) {
            None => None,
            Some((ts, i2)) => match spec_expect(s, i2, lit_base_path()) {
                None => None,
                Some(i3) => match spec_parse_string_body(s, i3) {
                    None => None,
                    Some((bp, i4)) => match spec_expect(s, i4, lit_operations()) {
                        None => None,
                        Some(i5) => match spec_parse_ops(s, i5) {
                            None => None,
                            Some((ops, i6)) => match spec_expect(s, i6, lit_doc_end()) {
                                None => None,
                                Some(i7) => if i7 == s.len() {
                                    Some((ts, bp, ops))
                                } else {
                                    None
                                },
                            },
                        },
                    },
                },
            },
        },
    }
}

/// Which part of a malformed document is reported: the first field at
/// which reading fails, or the document framing around the operations
/// array.
pub open spec fn spec_history_error_reason(s: Seq<char>) -> Seq<char> {
    match spec_expect(s, 0, lit_timestamp()) {
        None => "Missing or invalid 'timestamp' field"@,
        Some(i1) => match spec_parse_string_body(s, i1) {
            None => "Missing or invalid 'timestamp' field"@,
            Some((ts, i2)) => match spec_expect(s, i2, lit_base_path()) {
                None => "Missing or invalid 'base_path' field"@,
                Some(i3) => match spec_parse_string_body(s, i3) {
                    None => "Missing or invalid 'base_path' field"@,
                    Some((bp, i4)) => match spec_expect(s, i4, lit_operations()) {
                        None => "Missing or invalid 'operations' field"@,
                        Some(i5) => match spec_parse_ops(s, i5) {
                            None => "Missing or invalid 'operations' field"@,
                            Some((ops, i6)) => "malformed history document"@,
                        },
                    },
                },
            },
        },
    }
}

/// A successful string-body read stops at a quote inside the text and
/// never moves backwards.
pub proof fn lemma_parse_string_body_bounds(s: Seq<char>, i: int)
    ensures
        match spec_parse_string_body(s, i) {
            Some(p) => i <= p.1 < s.len() && s[p.1] == '"',
            None => true,
        },
    decreases s.len() - i,
{
    if 0 <= i && i < s.len() && s[i] != '"' {
        if s[i] == '\\' {
            if i + 1 < s.len() && (s[i + 1] == '"' || s[i + 1] == '\\') {
                lemma_parse_string_body_bounds(s, i + 2);
            }
        } else {
            lemma_parse_string_body_bounds(s, i + 1);
        }
    }
}

/// A successful operation read always moves forward and stays inside the
/// text.
pub proof fn lemma_parse_op_bounds(s: Seq<char>, i: int)
    ensures
        match spec_parse_op(s, i) {
            Some(p) => i < p.1 <= s.len(),
            None => true,
        },
{
    reveal_strlit("{\"original_path\":\"");
    if spec_parse_op(s, i) is Some {
        lemma_parse_string_body_bounds(s, i + lit_op_original().len() as int);
        if spec_parse_string_body(s, i + lit_op_original().len() as int) is Some {
            let p1 = spec_parse_string_body(s, i + lit_op_original().len() as int).unwrap();
            match spec_expect(s, p1.1, lit_op_new()) {
                None => {},
                Some(i3) => {
                    lemma_parse_string_body_bounds(s, i3);
                    match spec_parse_string_body(s, i3) {
                        None => {},
                        Some(p2) => {
                            match spec_expect(s, p2.1, lit_op_category()) {
                                None => {},
                                Some(i5) => {
                                    lemma_parse_string_body_bounds(s, i5);
                                },
                            }
                        },
                    }
                },
            }
        }
    }
}

/// Reads one operation record.
fn parse_op(s: &str, i: usize) -> (r: Option<(Operation, usize)>)
    ensures
        match r {
            Some(p) => spec_parse_op(s@, i as int) == Some((op_view(p.0), p.1 as int)),
            None => spec_parse_op(s@, i as int) is None,
        },
{
    let i1 = match expect_lit(s, i, "{\"original_path\":\"") {
        Some(j) => j,
        None => {
            return None;
        },
    };
    let (a, i2) = match parse_string_body(s, i1) {
        Some(p) => p,
        None => {
            return None;
        },
    };
    let i3 = match expect_lit(s, i2, "\",\"new_path\":\"") {
        Some(j) => j,
        None => {
            return None;
        },
    };
    let (b, i4) = match parse_string_body(s, i3) {
        Some(p) => p,
        None => {
            return None;
        },
    };
    let i5 = match expect_lit(s, i4, "\",\"category\":\"") {
        Some(j) => j,
        None => {
            return None;
        },
    };
    let (c, i6) = match parse_string_body(s, i5) {
        Some(p) => p,
        None => {
            return None;
        },
    };
    let i7 = match expect_lit(s, i6, "\"}") {
        Some(j) => j,
        None => {
            return None;
        },
    };
    Some((Operation { original_path: a, new_path: b, category: c }, i7))
}

/// Reads the rest of the operations array after its first record.
fn parse_more_ops(s: &str, i: usize) -> (r: Option<(Vec<Operation>, usize)>)
    ensures
        match r {
            Some(p) => spec_parse_more_ops(s@, i as int) == Some((ops_views(p.0@), p.1 as int)),
            None => spec_parse_more_ops(s@, i as int) is None,
        },
    decreases s@.len() - i,
{
    let ghost slen: int = s@.len() as int;
    let len = s.unicode_len();
    let c = match peek_char(s, i) {
        Some(c) => c,
        None => {
            return None;
        },
    };
    if c == ']' {
        let empty_ops: Vec<Operation> = Vec::new();
        proof {
            assert(ops_views(empty_ops@) =~= Seq::<OpView>::empty());
        }
        Some((empty_ops, i + 1))
    } else if c == ',' {
        let (op, j) = match parse_op(s, i + 1) {
            Some(p) => p,
            None => {
                return None;
            },
        };
        proof {
            lemma_parse_op_bounds(s@, i as int + 1);
        }
        match parse_more_ops(s, j) {
            Some((mut rest, k)) => {
                rest.insert(0, op);
                proof {
                    assert(ops_views(rest@) =~= seq![op_view(op)] + ops_views(
                        rest@.drop_first(),
                    ));
                }
                Some((rest, k))
            },
            None => None,
        }
    } else {
        None
    }
}

/// Reads the whole operations array body.
fn parse_ops(s: &str, i: usize) -> (r: Option<(Vec<Operation>, usize)>)
    ensures
        match r {
            Some(p) => spec_parse_ops(s@, i as int) == Some((ops_views(p.0@), p.1 as int)),
            None => spec_parse_ops(s@, i as int) is None,
        },
{
    let len = s.unicode_len();
    let c = match peek_char(s, i) {
        Some(c) => c,
        None => {
            return None;
        },
    };
    if c == ']' {
        let empty_ops: Vec<Operation> = Vec::new();
        proof {
            assert(ops_views(empty_ops@) =~= Seq::<OpView>::empty());
        }
        Some((empty_ops, i + 1))
    } else {
        let (op, j) = match parse_op(s, i) {
            Some(p) => p,
            None => {
                return None;
            },
        };
        match parse_more_ops(s, j) {
            Some((mut rest, k)) => {
                rest.insert(0, op);
                proof {
                    assert(ops_views(rest@) =~= seq![op_view(op)] + ops_views(
                        rest@.drop_first(),
                    ));
                }
                Some((rest, k))
            },
            None => None,
        }
    }
}

impl OperationLog {
    /// Renders the log as the history document that is persisted on
    /// disk.
    pub fn to_history_string(&self) -> (r: String)
        ensures
            r@ == spec_render_history(
                self.timestamp@,
                self.base_path@,
                ops_views(self.operations@),
            ),
    {
        let mut out = "{\"timestamp\":\"".to_owned();
        out.append(escape_string(self.timestamp.as_str()).as_str());
        out.append("\",\"base_path\":\"");
        out.append(escape_string(self.base_path.as_str()).as_str());
        out.append("\",\"operations\":[");
        out.append(render_ops_all(&self.operations).as_str());
        out.append("]}");
        proof {
            reveal_strlit("]}");
            reveal_strlit("]");
            reveal_strlit("}");
            assert("]}"@ =~= seq![']'] + lit_doc_end());
            assert(out@ =~= spec_render_history(
                self.timestamp@,
                self.base_path@,
                ops_views(self.operations@),
            ));
        }
        out
    }

    /// Parses a history document back into a log.  Exactly the documents
    /// this module renders are accepted; anything else is rejected as
    /// `InvalidHistoryFormat` with a reason naming the failing field.
    pub fn from_history_string(s: &str) -> (r: Result<OperationLog, OrganizeError>)
        ensures
            match r {
                Ok(log) => spec_parse_history(s@) == Some(
                    (log.timestamp@, log.base_path@, ops_views(log.operations@)),
                ),
                Err(e) => spec_parse_history(s@) is None && match e {
                    OrganizeError::InvalidHistoryFormat { reason } => reason@
                        == spec_history_error_reason(s@),
                    _ => false,
                },
            },
    {
        let i1 = match expect_lit(s, 0, "{\"timestamp\":\"") {
            Some(j) => j,
            None => {
                return Err(
                    OrganizeError::InvalidHistoryFormat {
                        reason: "Missing or invalid 'timestamp' field".to_owned(),
                    },
                );
            },
        };
        let (timestamp, i2) = match parse_string_body(s, i1) {
            Some(p) => p,
            None => {
                return Err(
                    OrganizeError::InvalidHistoryFormat {
                        reason: "Missing or invalid 'timestamp' field".to_owned(),
                    },
                );
            },
        };
        let i3 = match expect_lit(s, i2, "\",\"base_path\":\"") {
            Some(j) => j,
            None => {
                return Err(
                    OrganizeError::InvalidHistoryFormat {
                        reason: "Missing or invalid 'base_path' field".to_owned(),
                    },
                );
            },
        };
        let (base_path, i4) = match parse_string_body(s, i3) {
            Some(p) => p,
            None => {
                return Err(
                    OrganizeError::InvalidHistoryFormat {
                        reason: "Missing or invalid 'base_path' field".to_owned(),
                    },
                );
            },
        };
        let i5 = match expect_lit(s, i4, "\",\"operations\":[") {
            Some(j) => j,
            None => {
                return Err(
                    OrganizeError::InvalidHistoryFormat {
                        reason: "Missing or invalid 'operations' field".to_owned(),
                    },
                );
            },
        };
        let (operations, i6) = match parse_ops(s, i5) {
            Some(p) => p,
            None => {
                return Err(
                    OrganizeError::InvalidHistoryFormat {
                        reason: "Missing or invalid 'operations' field".to_owned(),
                    },
                );
            },
        };
        let i7 = match expect_lit(s, i6, "}") {
            Some(j) => j,
            None => {
                return Err(
                    OrganizeError::InvalidHistoryFormat {
                        reason: "malformed history document".to_owned(),
                    },
                );
            },
        };
        if i7 != s.unicode_len() {
            return Err(
                OrganizeError::InvalidHistoryFormat {
                    reason: "malformed history document".to_owned(),
                },
            );
        }
        Ok(OperationLog { timestamp, base_path, operations })
    }
}

/// Renders one operation record.
fn render_op_str(op: &Operation) -> (r: String)
    ensures
        r@ == spec_render_op(op_view(*op)),
{
    let mut out = "{\"original_path\":\"".to_owned();
    out.append(escape_string(op.original_path.as_str()).as_str());
    out.append("\",\"new_path\":\"");
    out.append(escape_string(op.new_path.as_str()).as_str());
    out.append("\",\"category\":\"");
    out.append(escape_string(op.category.as_str()).as_str());
    out.append("\"}");
    out
}

/// Renders the operations from index `k` on, each preceded by a comma.
fn render_ops_tail(ops: &Vec<Operation>, k: usize) -> (r: String)
    ensures
        r@ == spec_render_ops_tail(ops_views(ops@), k as int),
    decreases ops@.len() - k,
{
    if k >= ops.len() {
        String::new()
    } else {
        let mut out = ",".to_owned();
        proof {
            reveal_strlit(",");
            assert(","@ =~= seq![',']);
            assert(ops_views(ops@)[k as int] == op_view(ops@[k as int]));
        }
        out.append(render_op_str(&ops[k]).as_str());
        out.append(render_ops_tail(ops, k + 1).as_str());
        out
    }
}

/// A text that continues with `a + b` at `i` continues with `a` at `i`
/// and with `b` right after it.
pub proof fn lemma_subrange_split(s: Seq<char>, i: int, a: Seq<char>, b: Seq<char>)
    requires
        0 <= i,
        i + a.len() + b.len() <= s.len(),
        s.subrange(i, i + a.len() + b.len()) == a + b,
    ensures
        s.subrange(i, i + a.len() as int) == a,
        s.subrange(i + a.len() as int, i + a.len() + b.len()) == b,
{
    let sub = s.subrange(i, i + a.len() + b.len());
    assert forall|m: int| 0 <= m < a.len() implies s[i + m] == a[m] by {
        assert(sub[m] == s[i + m]);
        assert(sub[m] == (a + b)[m]);
        assert((a + b)[m] == a[m]);
    }
    assert forall|m: int| 0 <= m < b.len() implies s[i + (a.len() + m)] == b[m] by {
        assert(sub[a.len() + m] == s[i + (a.len() + m)]);
        assert(sub[a.len() + m] == (a + b)[a.len() + m]);
        assert((a + b)[a.len() + m] == b[m]);
    }
    assert(s.subrange(i, i + a.len() as int) =~= a);
    assert(s.subrange(i + a.len() as int, i + a.len() + b.len()) =~= b);
}

/// Reading a rendered operation record back yields the record.
pub proof fn lemma_parse_op_at(s: Seq<char>, i: int, op: OpView)
    requires
        0 <= i,
        i + spec_render_op(op).len() <= s.len(),
        s.subrange(i, i + spec_render_op(op).len() as int) == spec_render_op(op),
    ensures
        spec_parse_op(s, i) == Some((op, i + spec_render_op(op).len() as int)),
{
    reveal_strlit("\",\"new_path\":\"");
    reveal_strlit("\",\"category\":\"");
    reveal_strlit("\"}");
    let l1 = lit_op_original();
    let e1 = spec_escape(op.0);
    let l2 = lit_op_new();
    let e2 = spec_escape(op.1);
    let l3 = lit_op_category();
    let e3 = spec_escape(op.2);
    let l4 = lit_op_end();
    let r = spec_render_op(op);
    let r1 = e1 + l2 + e2 + l3 + e3 + l4;
    let r2 = l2 + e2 + l3 + e3 + l4;
    let r3 = e2 + l3 + e3 + l4;
    let r4 = l3 + e3 + l4;
    let r5 = e3 + l4;
    let p1 = i + l1.len() as int;
    let p2 = p1 + e1.len() as int;
    let p3 = p2 + l2.len() as int;
    let p4 = p3 + e2.len() as int;
    let p5 = p4 + l3.len() as int;
    let p6 = p5 + e3.len() as int;
    let p7 = p6 + l4.len() as int;
    assert(r =~= l1 + r1);
    lemma_subrange_split(s, i, l1, r1);
    assert(r1 =~= e1 + r2);
    lemma_subrange_split(s, p1, e1, r2);
    assert(r2 =~= l2 + r3);
    lemma_subrange_split(s, p2, l2, r3);
    assert(r3 =~= e2 + r4);
    lemma_subrange_split(s, p3, e2, r4);
    assert(r4 =~= l3 + r5);
    lemma_subrange_split(s, p4, l3, r5);
    lemma_subrange_split(s, p5, e3, l4);
    assert(spec_expect(s, i, l1) == Some(p1));
    assert(s[p2] == s.subrange(p2, p2 + l2.len() as int)[0] == l2[0]);
    assert(l2[0] == '"');
    lemma_parse_escape(s, p1, op.0);
    assert(spec_expect(s, p2, l2) == Some(p3));
    assert(s[p4] == s.subrange(p4, p4 + l3.len() as int)[0] == l3[0]);
    assert(l3[0] == '"');
    lemma_parse_escape(s, p3, op.1);
    assert(spec_expect(s, p4, l3) == Some(p5));
    assert(s[p6] == s.subrange(p6, p6 + l4.len() as int)[0] == l4[0]);
    assert(l4[0] == '"');
    lemma_parse_escape(s, p5, op.2);
    assert(spec_expect(s, p6, l4) == Some(p7));
    assert((op.0, op.1, op.2) == op);
}

/// Reading a rendered tail of the operations array back yields those
/// operations, up to and including the closing bracket that follows it.
pub proof fn lemma_parse_more_at(s: Seq<char>, i: int, ops: Seq<OpView>, k: int)
    requires
        0 <= k <= ops.len(),
        0 <= i,
        i + spec_render_ops_tail(ops, k).len() < s.len(),
        s.subrange(i, i + spec_render_ops_tail(ops, k).len() as int) == spec_render_ops_tail(
            ops,
            k,
        ),
        s[i + spec_render_ops_tail(ops, k).len() as int] == ']',
    ensures
        spec_parse_more_ops(s, i) == Some(
            (ops.skip(k), i + spec_render_ops_tail(ops, k).len() as int + 1),
        ),
    decreases ops.len() - k,
{
    let t = spec_render_ops_tail(ops, k);
    if k == ops.len() {
        assert(t =~= Seq::<char>::empty());
        assert(s[i] == ']');
        assert(ops.skip(k) =~= Seq::<OpView>::empty());
    } else {
        let rop = spec_render_op(ops[k]);
        let rest = spec_render_ops_tail(ops, k + 1);
        assert(t == seq![','] + rop + rest);
        let comma = seq![','];
        let r1 = rop + rest;
        assert(t =~= comma + r1);
        lemma_subrange_split(s, i, comma, r1);
        assert(s[i] == s.subrange(i, i + 1)[0] == ',');
        lemma_subrange_split(s, i + 1, rop, rest);
        lemma_parse_op_at(s, i + 1, ops[k]);
        let j = i + 1 + rop.len() as int;
        lemma_parse_more_at(s, j, ops, k + 1);
        assert(seq![ops[k]] + ops.skip(k + 1) =~= ops.skip(k));
    }
}

/// Reading a rendered operations array body back yields the operations,
/// up to and including the closing bracket that follows it.
pub proof fn lemma_parse_ops_at(s: Seq<char>, i: int, ops: Seq<OpView>)
    requires
        0 <= i,
        i + spec_render_ops(ops).len() < s.len(),
        s.subrange(i, i + spec_render_ops(ops).len() as int) == spec_render_ops(ops),
        s[i + spec_render_ops(ops).len() as int] == ']',
    ensures
        spec_parse_ops(s, i) == Some((ops, i + spec_render_ops(ops).len() as int + 1)),
{
    reveal_strlit("{\"original_path\":\"");
    let r = spec_render_ops(ops);
    if ops.len() == 0 {
        assert(r =~= Seq::<char>::empty());
        assert(s[i] == ']');
        assert(spec_parse_ops(s, i) == Some((Seq::<OpView>::empty(), i + 1)));
        assert(Seq::<OpView>::empty() =~= ops);
    } else {
        let rop = spec_render_op(ops[0]);
        let rest = spec_render_ops_tail(ops, 1);
        assert(r =~= rop + rest);
        lemma_subrange_split(s, i, rop, rest);
        assert(s[i] == s.subrange(i, i + rop.len() as int)[0] == rop[0]);
        assert(rop[0] == lit_op_original()[0] == '{');
        lemma_parse_op_at(s, i, ops[0]);
        let j = i + rop.len() as int;
        lemma_parse_more_at(s, j, ops, 1);
        assert(seq![ops[0]] + ops.skip(1) =~= ops);
    }
}

/// Reading back the header of a rendered document: the timestamp and
/// base path fields parse to the values they were rendered from.
pub proof fn lemma_parse_history_header(s: Seq<char>, ts: Seq<char>, bp: Seq<char>, rest: Seq<char>)
    requires
        s == lit_timestamp() + spec_escape(ts) + lit_base_path() + spec_escape(bp)
            + lit_operations() + rest,
    ensures
        spec_expect(s, 0, lit_timestamp()) == Some(lit_timestamp().len() as int),
        spec_parse_string_body(s, lit_timestamp().len() as int) == Some(
            (ts, lit_timestamp().len() + spec_escape(ts).len() as int),
        ),
        spec_expect(
            s,
            lit_timestamp().len() + spec_escape(ts).len() as int,
            lit_base_path(),
        ) == Some(lit_timestamp().len() + spec_escape(ts).len() + lit_base_path().len() as int),
        spec_parse_string_body(
            s,
            lit_timestamp().len() + spec_escape(ts).len() + lit_base_path().len() as int,
        ) == Some(
            (
                bp,
                lit_timestamp().len() + spec_escape(ts).len() + lit_base_path().len()
                    + spec_escape(bp).len() as int,
            ),
        ),
        spec_expect(
            s,
            lit_timestamp().len() + spec_escape(ts).len() + lit_base_path().len()
                + spec_escape(bp).len() as int,
            lit_operations(),
        ) == Some(
            lit_timestamp().len() + spec_escape(ts).len() + lit_base_path().len()
                + spec_escape(bp).len() + lit_operations().len() as int,
        ),
{
    reveal_strlit("\",\"base_path\":\"");
    reveal_strlit("\",\"operations\":[");
    let l1 = lit_timestamp();
    let e1 = spec_escape(ts);
    let l2 = lit_base_path();
    let e2 = spec_escape(bp);
    let l3 = lit_operations();
    let r1 = e1 + l2 + e2 + l3 + rest;
    let r2 = l2 + e2 + l3 + rest;
    let r3 = e2 + l3 + rest;
    let r4 = l3 + rest;
    let p1 = 0 + l1.len() as int;
    let p2 = p1 + e1.len() as int;
    let p3 = p2 + l2.len() as int;
    let p4 = p3 + e2.len() as int;
    let p5 = p4 + l3.len() as int;
    assert(s.subrange(0, s.len() as int) =~= s);
    assert(s =~= l1 + r1);
    lemma_subrange_split(s, 0, l1, r1);
    assert(r1 =~= e1 + r2);
    lemma_subrange_split(s, p1, e1, r2);
    assert(r2 =~= l2 + r3);
    lemma_subrange_split(s, p2, l2, r3);
    assert(r3 =~= e2 + r4);
    lemma_subrange_split(s, p3, e2, r4);
    lemma_subrange_split(s, p4, l3, rest);
    assert(spec_expect(s, 0, l1) == Some(p1));
    assert(s[p2] == s.subrange(p2, p2 + l2.len() as int)[0] == l2[0]);
    assert(l2[0] == '"');
    lemma_parse_escape(s, p1, ts);
    assert(spec_expect(s, p2, l2) == Some(p3));
    assert(s[p4] == s.subrange(p4, p4 + l3.len() as int)[0] == l3[0]);
    assert(l3[0] == '"');
    lemma_parse_escape(s, p3, bp);
    assert(spec_expect(s, p4, l3) == Some(p5));
}

/// Round trip: parsing a rendered history document yields exactly the
/// timestamp, base path and operations it was rendered from.
pub proof fn lemma_history_round_trip(ts: Seq<char>, bp: Seq<char>, ops: Seq<OpView>)
    ensures
        spec_parse_history(spec_render_history(ts, bp, ops)) == Some((ts, bp, ops)),
{
    reveal_strlit("}");
    let l1 = lit_timestamp();
    let e1 = spec_escape(ts);
    let l2 = lit_base_path();
    let e2 = spec_escape(bp);
    let l3 = lit_operations();
    let ro = spec_render_ops(ops);
    let close = seq![']'];
    let l4 = lit_doc_end();
    let s = spec_render_history(ts, bp, ops);
    let rest = ro + close + l4;
    let p5 = l1.len() + e1.len() + l2.len() + e2.len() + l3.len() as int;
    let p6 = p5 + ro.len() as int;
    let p7 = p6 + 1;
    let p8 = p7 + l4.len() as int;
    assert(s =~= l1 + e1 + l2 + e2 + l3 + rest);
    lemma_parse_history_header(s, ts, bp, rest);
    assert(s.subrange(0, s.len() as int) =~= s);
    assert(s =~= (l1 + e1 + l2 + e2 + l3) + rest) by {
        assert(s =~= l1 + e1 + l2 + e2 + l3 + rest);
    }
    lemma_subrange_split(s, 0, l1 + e1 + l2 + e2 + l3, rest);
    assert(rest =~= ro + (close + l4));
    lemma_subrange_split(s, p5, ro, close + l4);
    lemma_subrange_split(s, p6, close, l4);
    assert(s[p6] == s.subrange(p6, p6 + 1)[0] == ']');
    lemma_parse_ops_at(s, p5, ops);
    assert(spec_expect(s, p7, l4) == Some(p8));
    assert(p8 == s.len());
}

/// Renders the whole operations array body.
fn render_ops_all(ops: &Vec<Operation>) -> (r: String)
    ensures
        r@ == spec_render_ops(ops_views(ops@)),
{
    if ops.len() == 0 {
        String::new()
    } else {
        proof {
            assert(ops_views(ops@)[0] == op_view(ops@[0]));
        }
        let mut out = render_op_str(&ops[0]);
        out.append(render_ops_tail(ops, 1).as_str());
        out
    }
}

} // verus!
