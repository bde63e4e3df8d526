//! The ownership timeline of the borrow explainer: which lines of `cargo
//! check --message-format=json` output are compiler messages, the stable
//! ordering of a message's source spans by starting line, and the text of
//! the ASCII timeline drawn from the messages.
use serde_json::Value;
use vstd::prelude::*;

use crate::text::{
    decimal, push_decimal, push_text, text_eq, text_or, trim, trim_whitespace,
};

verus! {

/// One source span of a compiler diagnostic, as far as the timeline reads it.
/// A field is `None` where the span has no such entry or its entry has another type.
pub struct SpanRecord {
    pub line_start: Option<u64>,
    pub file_name: Option<String>,
    pub is_primary: Option<bool>,
    pub label: Option<String>,
    /// The `text` of the first entry of the span's `text` list.
    pub text: Option<String>,
}

/// One compiler diagnostic: its code, its message and its source spans
/// (empty where the diagnostic has no span list).
pub struct DiagnosticRecord {
    /// The `code` entry of the diagnostic's `code` object.
    pub code: Option<String>,
    pub message: Option<String>,
    pub spans: Vec<SpanRecord>,
}

pub const COMPILER_MESSAGE_REASON: &'static str = "compiler-message";

pub const ALL_CLEAR: &'static str =
    "No compilation borrow/lifetime errors detected! Everything is green. ✨\n";

pub const TIMELINE_HEADER: &'static str = "--- 📈 Structural Ownership Timeline ---\n";

pub const NO_SPANS_NOTE: &'static str =
    "No detailed source spans available in compiler diagnostic outputs.\n";

pub const PRIMARY_GLYPH: &'static str = "[Primary]   *==================X (Borrow/Lifetime Error)";

pub const SECONDARY_GLYPH: &'static str = "[Secondary]      *=========X    (Active Borrow Reference)";

pub const UNKNOWN_CODE: &'static str = "unknown";

pub const DEFAULT_MESSAGE: &'static str = "Diagnostic message";

pub const DEFAULT_FILE: &'static str = "src/main.rs";

// ---------------------------------------------------------------------------
// Selecting the compiler messages
// ---------------------------------------------------------------------------

/// One span as it is read: (line_start, file_name, is_primary, label, text).
pub type RawSpan = (Option<u64>, Option<String>, Option<bool>, Option<String>, Option<String>);

/// One message as it is read: (code, message, spans, the message's JSON text).
pub type RawMessage = (Option<String>, Option<String>, Vec<RawSpan>, String);

/// One line of cargo's output as it is read: (reason, message).
pub type RawCargoLine = (Option<String>, Option<RawMessage>);

/// A span as plain values: (line_start, file_name, is_primary, label, text).
pub type SpanView = (Option<u64>, Option<Seq<char>>, Option<bool>, Option<Seq<char>>, Option<Seq<char>>);

/// A diagnostic as plain values: (code, message, spans).
pub type DiagnosticView = (Option<Seq<char>>, Option<Seq<char>>, Seq<SpanView>);

/// A message as plain values: (its diagnostic, its JSON text).
pub type MessageView = (DiagnosticView, Seq<char>);

/// A cargo line as plain values: (reason, its message).
pub type CargoLineView = (Option<Seq<char>>, Option<MessageView>);

pub open spec fn opt_text(o: Option<String>) -> Option<Seq<char>> {
    match o {
        Some(s) => Some(s@),
        None => None,
    }
}

pub open spec fn span_view(s: SpanRecord) -> SpanView {
    (s.line_start, opt_text(s.file_name), s.is_primary, opt_text(s.label), opt_text(s.text))
}

pub open spec fn diagnostic_view(d: DiagnosticRecord) -> DiagnosticView {
    (opt_text(d.code), opt_text(d.message), Seq::new(d.spans@.len(), |i: int| span_view(d.spans@[i])))
}

pub open spec fn raw_span_view(r: RawSpan) -> SpanView {
    (r.0, opt_text(r.1), r.2, opt_text(r.3), opt_text(r.4))
}

pub open spec fn raw_message_view(m: RawMessage) -> MessageView {
    ((opt_text(m.0), opt_text(m.1), Seq::new(m.2@.len(), |i: int| raw_span_view(m.2@[i]))), m.3@)
}

pub open spec fn raw_line_view(r: RawCargoLine) -> CargoLineView {
    (
        opt_text(r.0),
        match r.1 {
            Some(m) => Some(raw_message_view(m)),
            None => None,
        },
    )
}

/// What reading one line of cargo's output as JSON gives: `None` where the
/// line is not JSON; else the line's `reason` (where it is a string) and,
/// where the line has a `message`, the diagnostic read from it: the `code`
/// of its `code` object, its `message` text, and for each entry of its
/// `spans` list the `line_start`, `file_name`, `is_primary`, `label`, and
/// the `text` of the first entry of its `text` list, together with the
/// message's compact JSON text as `serde_json` writes it. A field is `None`
/// where it is missing or of another type.
pub uninterp spec fn cargo_line(line: Seq<char>) -> Option<CargoLineView>;

/// Calls `serde_json::from_str` for a `serde_json::Value` and reads the
/// fields with `get`, indexing (`Value::Null` where a key or position is
/// missing), `as_str`, `as_u64`, `as_bool` and `as_array`; what comes back is
/// named `cargo_line` of the line. The message's JSON text is written with
/// `to_string`.
#[verifier::external_body]
fn read_cargo_line(line: &str) -> (r: Option<RawCargoLine>)
    ensures
        match r {
            Some(c) => cargo_line(line@) == Some(raw_line_view(c)),
            None => cargo_line(line@) is None,
        },
{
    let v: Value = serde_json::from_str(line).ok()?;
    let s = |x: &Value| x.as_str().map(String::from);
    let span = |x: &Value| (x["line_start"].as_u64(), s(&x["file_name"]),
        x["is_primary"].as_bool(), s(&x["label"]), s(&x["text"][0]["text"]));
    let message = v.get("message").map(|m| (s(&m["code"]["code"]), s(&m["message"]),
        m["spans"].as_array().into_iter().flatten().map(span).collect(), m.to_string()));
    Some((s(&v["reason"]), message))
}

fn copy_text(o: &Option<String>) -> (r: Option<String>)
    ensures
        opt_text(r) == opt_text(*o),
{
    match o {
        Some(t) => Some(t.clone()),
        None => None,
    }
}

/// The diagnostic record of a message as it was read.
fn diagnostic_from(m: &RawMessage) -> (d: DiagnosticRecord)
    ensures
        diagnostic_view(d) == raw_message_view(*m).0,
{
    let mut spans: Vec<SpanRecord> = Vec::new();
    let mut i: usize = 0;
    while i < m.2.len()
        invariant
            i <= m.2@.len(),
            spans@.len() == i,
            forall|j: int| 0 <= j < i ==> span_view(#[trigger] spans@[j]) == raw_span_view(m.2@[j]),
        decreases m.2@.len() - i,
    {
        let r = &m.2[i];
        spans.push(SpanRecord {
            line_start: r.0,
            file_name: copy_text(&r.1),
            is_primary: r.2,
            label: copy_text(&r.3),
            text: copy_text(&r.4),
        });
        i += 1;
    }
    let d = DiagnosticRecord { code: copy_text(&m.0), message: copy_text(&m.1), spans };
    assert(diagnostic_view(d).2 =~= raw_message_view(*m).0.2);
    d
}

/// A line of cargo output counts when it is JSON, its reason is
/// `compiler-message` and it carries a message.
pub open spec fn is_compiler_message(r: Option<CargoLineView>) -> bool {
    &&& r matches Some(c)
    &&& c.0 == Some(COMPILER_MESSAGE_REASON@)
    &&& c.1 is Some
}

/// The positions, in order, of the lines that are compiler messages.
pub open spec fn compiler_message_positions(rs: Seq<Option<CargoLineView>>) -> Seq<int>
    decreases rs.len(),
{
    if rs.len() == 0 {
        seq![]
    } else {
        let prev = compiler_message_positions(rs.drop_last());
        if is_compiler_message(rs.last()) {
            prev.push(rs.len() - 1)
        } else {
            prev
        }
    }
}

/// How each line of cargo's output reads.
pub open spec fn line_readings(lines: Seq<String>) -> Seq<Option<CargoLineView>> {
    Seq::new(lines.len(), |i: int| cargo_line(lines[i]@))
}

// ---------------------------------------------------------------------------
// Ordering spans by starting line
// ---------------------------------------------------------------------------

/// The starting line of a span, 0 where it has none.
pub open spec fn line_key(s: SpanRecord) -> nat {
    match s.line_start {
        Some(l) => l as nat,
        None => 0,
    }
}

/// The starting lines of a list of spans.
pub open spec fn line_keys(spans: Seq<SpanRecord>) -> Seq<nat> {
    Seq::new(spans.len(), |i: int| line_key(spans[i]))
}

/// Inserts index `i` into `order` behind every index whose key is not
/// greater than the key of `i`, searching from the back.
pub open spec fn insert_by_key(order: Seq<int>, keys: Seq<nat>, i: int) -> Seq<int>
    decreases order.len(),
{
    if order.len() == 0 {
        seq![i]
    } else if keys[order.last()] <= keys[i] {
        order.push(i)
    } else {
        insert_by_key(order.drop_last(), keys, i).push(order.last())
    }
}

/// The order of the first `n` indices after inserting them one by one.
pub open spec fn order_prefix(keys: Seq<nat>, n: nat) -> Seq<int>
    decreases n,
{
    if n == 0 {
        seq![]
    } else {
        insert_by_key(order_prefix(keys, (n - 1) as nat), keys, n - 1)
    }
}

/// The indices of `keys` in the order of a stable sort by key.
pub open spec fn line_order(keys: Seq<nat>) -> Seq<int> {
    order_prefix(keys, keys.len())
}

/// `order` lists distinct indices below `n`, ascending by key, and equal
/// keys keep their index order.
pub open spec fn stably_sorted(order: Seq<int>, keys: Seq<nat>, n: int) -> bool {
    &&& forall|j: int| 0 <= j < order.len() ==> 0 <= #[trigger] order[j] < n
    &&& forall|j: int, k: int| 0 <= j < k < order.len() ==> order[j] != order[k]
    &&& forall|j: int, k: int|
        0 <= j < k < order.len() ==> keys[#[trigger] order[j]] <= keys[#[trigger] order[k]]
    &&& forall|j: int, k: int|
        0 <= j < k < order.len() && keys[order[j]] == keys[order[k]] ==> #[trigger] order[j]
            < #[trigger] order[k]
}

/// Where `insert_by_key` puts the new index: behind the last entry whose key
/// is not greater, in front of the run of greater keys at the back.
proof fn lemma_insert_position(order: Seq<int>, keys: Seq<nat>, i: int) -> (p: int)
    ensures
        0 <= p <= order.len(),
        insert_by_key(order, keys, i) == order.insert(p, i),
        forall|q: int| p <= q < order.len() ==> keys[order[q]] > keys[i],
        p > 0 ==> keys[order[p - 1]] <= keys[i],
    decreases order.len(),
{
    if order.len() == 0 {
        assert(order.insert(0, i) =~= seq![i]);
        0
    } else if keys[order.last()] <= keys[i] {
        assert(order.insert(order.len() as int, i) =~= order.push(i));
        order.len() as int
    } else {
        let p = lemma_insert_position(order.drop_last(), keys, i);
        assert(order.insert(p, i) =~= order.drop_last().insert(p, i).push(order.last()));
        assert forall|q: int| p <= q < order.len() implies keys[order[q]] > keys[i] by {
            if q < order.len() - 1 {
                assert(order[q] == order.drop_last()[q]);
            }
        }
        p
    }
}

/// A position with the two properties of `lemma_insert_position` is that position.
proof fn lemma_insert_at(order: Seq<int>, keys: Seq<nat>, i: int, p: int)
    requires
        0 <= p <= order.len(),
        forall|q: int| p <= q < order.len() ==> keys[order[q]] > keys[i],
        p > 0 ==> keys[order[p - 1]] <= keys[i],
    ensures
        insert_by_key(order, keys, i) == order.insert(p, i),
{
    let p2 = lemma_insert_position(order, keys, i);
    if p2 < p {
        assert(keys[order[p - 1]] > keys[i]);
    } else if p < p2 {
        assert(keys[order[p2 - 1]] > keys[i]);
    }
}

/// The entry at position `j` after inserting `i` at position `p`.
spec fn inserted_at(prev: Seq<int>, p: int, i: int, j: int) -> int {
    if j < p {
        prev[j]
    } else if j == p {
        i
    } else {
        prev[j - 1]
    }
}

proof fn lemma_insert_keeps_sorted(prev: Seq<int>, keys: Seq<nat>, i: int, p: int)
    requires
        stably_sorted(prev, keys, i),
        0 <= i,
        0 <= p <= prev.len(),
        forall|q: int| p <= q < prev.len() ==> keys[prev[q]] > keys[i],
        p > 0 ==> keys[prev[p - 1]] <= keys[i],
    ensures
        stably_sorted(prev.insert(p, i), keys, i + 1),
{
    let o = prev.insert(p, i);
    prev.insert_ensures(p, i);
    assert forall|j: int| 0 <= j < o.len() implies #[trigger] o[j] == inserted_at(prev, p, i, j) by {
        if j > p {
            assert(o[(j - 1) + 1] == prev[j - 1]);
        }
    }
    assert forall|j: int| 0 <= j < o.len() implies 0 <= #[trigger] o[j] < i + 1 by {
        assert(o[j] == inserted_at(prev, p, i, j));
    }
    assert forall|j: int, k: int| 0 <= j < k < o.len() implies o[j] != o[k] by {
        assert(o[j] == inserted_at(prev, p, i, j));
        assert(o[k] == inserted_at(prev, p, i, k));
    }
    assert forall|j: int, k: int|
        0 <= j < k < o.len() implies keys[#[trigger] o[j]] <= keys[#[trigger] o[k]] by {
        assert(o[j] == inserted_at(prev, p, i, j));
        assert(o[k] == inserted_at(prev, p, i, k));
        if k == p && j < p - 1 {
            assert(keys[prev[j]] <= keys[prev[p - 1]]);
        }
    }
    assert forall|j: int, k: int|
        0 <= j < k < o.len() && keys[o[j]] == keys[o[k]] implies #[trigger] o[j]
        < #[trigger] o[k] by {
        assert(o[j] == inserted_at(prev, p, i, j));
        assert(o[k] == inserted_at(prev, p, i, k));
    }
}

proof fn lemma_order_prefix(keys: Seq<nat>, n: nat)
    requires
        n <= keys.len(),
    ensures
        order_prefix(keys, n).len() == n,
        stably_sorted(order_prefix(keys, n), keys, n as int),
        forall|k: int| 0 <= k < n ==> order_prefix(keys, n).contains(k),
    decreases n,
{
    if n > 0 {
        let prev = order_prefix(keys, (n - 1) as nat);
        lemma_order_prefix(keys, (n - 1) as nat);
        let p = lemma_insert_position(prev, keys, n - 1);
        lemma_insert_keeps_sorted(prev, keys, n - 1, p);
        let o = order_prefix(keys, n);
        prev.insert_ensures(p, n - 1);
        assert(o == prev.insert(p, n - 1));
        assert forall|k: int| 0 <= k < n implies o.contains(k) by {
            if k == n - 1 {
                assert(o[p] == k);
            } else {
                assert(prev.contains(k));
                let j = choose|j: int| 0 <= j < prev.len() && prev[j] == k;
                if j < p {
                    assert(o[j] == k);
                } else {
                    assert(o[j + 1] == k);
                }
            }
        }
    }
}

/// The spans of a diagnostic are listed sorted by starting line: the order
/// is a permutation of the span indices, ascending by starting line, and
/// spans with equal starting lines keep the order in which they came.
pub proof fn lemma_line_order_is_stable_sort(keys: Seq<nat>)
    ensures
        line_order(keys).len() == keys.len(),
        stably_sorted(line_order(keys), keys, keys.len() as int),
        forall|k: int| 0 <= k < keys.len() ==> line_order(keys).contains(k),
{
    lemma_order_prefix(keys, keys.len());
}

/// The starting line of a span, 0 where it has none.
pub fn span_line(s: &SpanRecord) -> (k: u64)
    ensures
        k as nat == line_key(*s),
{
    match s.line_start {
        Some(l) => l,
        None => 0,
    }
}

/// The order in which a diagnostic lists its spans: the span indices,
/// stably sorted by starting line.
pub fn span_order(spans: &Vec<SpanRecord>) -> (order: Vec<usize>)
    ensures
        order@.len() == line_order(line_keys(spans@)).len(),
        forall|j: int|
            0 <= j < order@.len() ==> order@[j] as int == line_order(line_keys(spans@))[j],
{
    let ghost keys = line_keys(spans@);
    let mut order: Vec<usize> = Vec::new();
    let mut i: usize = 0;
    while i < spans.len()
        invariant
            i <= spans@.len(),
            keys == line_keys(spans@),
            order@.len() == order_prefix(keys, i as nat).len(),
            forall|j: int| 0 <= j < order@.len() ==> order@[j] as int == order_prefix(keys, i as nat)[j],
            forall|j: int| 0 <= j < order@.len() ==> order@[j] < i,
        decreases spans@.len() - i,
    {
        let ghost prev = order_prefix(keys, i as nat);
        let k = span_line(&spans[i]);
        let mut p: usize = order.len();
        while p > 0 && span_line(&spans[order[p - 1]]) > k
            invariant
                p <= order@.len(),
                i < spans@.len(),
                k as nat == keys[i as int],
                keys == line_keys(spans@),
                forall|j: int| 0 <= j < order@.len() ==> order@[j] < i,
                forall|j: int| 0 <= j < order@.len() ==> order@[j] as int == prev[j],
                order@.len() == prev.len(),
                forall|q: int| p <= q < order@.len() ==> keys[prev[q]] > keys[i as int],
            decreases p,
        {
            p -= 1;
        }
        proof {
            lemma_insert_at(prev, keys, i as int, p as int);
            prev.insert_ensures(p as int, i as int);
        }
        let ghost before = order@;
        order.insert(p, i);
        proof {
            before.insert_ensures(p as int, i);
            assert forall|j: int| 0 <= j < order@.len() implies order@[j] as int == order_prefix(
                keys,
                (i + 1) as nat,
            )[j] by {
                if j > p {
                    assert(order@[j] == before[j - 1]);
                }
            }
        }
        i += 1;
    }
    order
}

// ---------------------------------------------------------------------------
// Drawing the timeline
// ---------------------------------------------------------------------------

/// The glyph drawn for a span: the primary one only where `is_primary` is `true`.
pub open spec fn span_glyph(s: SpanRecord) -> Seq<char> {
    if s.is_primary == Some(true) {
        PRIMARY_GLYPH@
    } else {
        SECONDARY_GLYPH@
    }
}

/// The note line of a span, present only where its label is not empty.
pub open spec fn span_note(s: SpanRecord) -> Seq<char> {
    let label = text_or(s.label, seq![]);
    if label.len() > 0 {
        "  Note: ^-- "@ + label + "\n"@
    } else {
        seq![]
    }
}

/// The lines drawn for one span; a span without a positive starting line
/// draws nothing.
pub open spec fn span_entry(s: SpanRecord) -> Seq<char> {
    if line_key(s) > 0 {
        "  File: "@ + text_or(s.file_name, DEFAULT_FILE@) + " (Line "@ + decimal(line_key(s))
            + ")\n  Code: "@ + trim_whitespace(text_or(s.text, seq![])) + "\n  Map:  "@
            + span_glyph(s) + "\n"@ + span_note(s) + "\n"@
    } else {
        seq![]
    }
}

/// The entries of the spans at the positions `order`, in that order.
pub open spec fn span_entries(spans: Seq<SpanRecord>, order: Seq<int>) -> Seq<char>
    decreases order.len(),
{
    if order.len() == 0 {
        seq![]
    } else {
        span_entries(spans, order.drop_last()) + span_entry(spans[order.last()])
    }
}

/// The block of one diagnostic: its heading line, then its spans sorted by
/// starting line.
pub open spec fn diagnostic_entry(d: DiagnosticRecord) -> Seq<char> {
    "\nDiagnostic: ["@ + text_or(d.code, UNKNOWN_CODE@) + "] "@ + text_or(
        d.message,
        DEFAULT_MESSAGE@,
    ) + "\n"@ + span_entries(d.spans@, line_order(line_keys(d.spans@)))
}

/// The positions of `order` whose span has a positive starting line, in the
/// order of `order`.
pub open spec fn located_only(spans: Seq<SpanRecord>, order: Seq<int>) -> Seq<int>
    decreases order.len(),
{
    if order.len() == 0 {
        seq![]
    } else {
        let prev = located_only(spans, order.drop_last());
        if line_key(spans[order.last()]) > 0 {
            prev.push(order.last())
        } else {
            prev
        }
    }
}

/// The spans that a diagnostic's block draws: those with a positive
/// starting line, in stable line order.
pub open spec fn drawn_spans(d: DiagnosticRecord) -> Seq<int> {
    located_only(d.spans@, line_order(line_keys(d.spans@)))
}

/// The entry texts of the spans at positions `idx`.
pub open spec fn entries_of(spans: Seq<SpanRecord>, idx: Seq<int>) -> Seq<Seq<char>> {
    Seq::new(idx.len(), |i: int| span_entry(spans[idx[i]]))
}

/// Texts written one after the other.
pub open spec fn joined(texts: Seq<Seq<char>>) -> Seq<char>
    decreases texts.len(),
{
    if texts.len() == 0 {
        seq![]
    } else {
        joined(texts.drop_last()) + texts.last()
    }
}

/// The text begins with `prefix`.
pub open spec fn starts_with(text: Seq<char>, prefix: Seq<char>) -> bool {
    prefix.len() <= text.len() && text.subrange(0, prefix.len() as int) == prefix
}

proof fn lemma_span_entries_located(spans: Seq<SpanRecord>, order: Seq<int>)
    ensures
        span_entries(spans, order) == joined(entries_of(spans, located_only(spans, order))),
        forall|q: int| #[trigger] located_only(spans, order).contains(q) <==> (order.contains(q)
            && line_key(spans[q]) > 0),
    decreases order.len(),
{
    if order.len() > 0 {
        let o2 = order.drop_last();
        let x = order.last();
        lemma_span_entries_located(spans, o2);
        let prev = located_only(spans, o2);
        if line_key(spans[x]) > 0 {
            assert(entries_of(spans, prev.push(x)).drop_last() =~= entries_of(spans, prev));
        } else {
            assert(span_entry(spans[x]) =~= Seq::<char>::empty());
            assert(span_entries(spans, order) =~= span_entries(spans, o2));
        }
        assert(order =~= o2.push(x));
        let l = located_only(spans, order);
        assert forall|q: int| #[trigger] l.contains(q) implies (order.contains(q) && line_key(
            spans[q],
        ) > 0) by {
            let j = choose|j: int| 0 <= j < l.len() && l[j] == q;
            if line_key(spans[x]) > 0 && j == prev.len() {
                assert(order[order.len() - 1] == q);
            } else {
                assert(l[j] == prev[j]);
                assert(prev.contains(q));
                let i = choose|i: int| 0 <= i < o2.len() && o2[i] == q;
                assert(order[i] == q);
            }
        }
        assert forall|q: int| order.contains(q) && line_key(spans[q]) > 0 implies #[trigger] l.contains(
            q,
        ) by {
            let i = choose|i: int| 0 <= i < order.len() && order[i] == q;
            if i == order.len() - 1 {
                assert(l[l.len() - 1] == q);
            } else {
                assert(o2[i] == q);
                assert(o2.contains(q));
                assert(prev.contains(q));
                let j = choose|j: int| 0 <= j < prev.len() && prev[j] == q;
                assert(l[j] == q);
            }
        }
    }
}

/// Dropping the spans without a line keeps a stable sort stable.
proof fn lemma_located_only_sorted(spans: Seq<SpanRecord>, order: Seq<int>, keys: Seq<nat>, n: int)
    requires
        stably_sorted(order, keys, n),
    ensures
        stably_sorted(located_only(spans, order), keys, n),
        forall|j: int| 0 <= j < located_only(spans, order).len() ==> #[trigger] order.contains(
            located_only(spans, order)[j],
        ),
    decreases order.len(),
{
    if order.len() > 0 {
        let o2 = order.drop_last();
        let x = order.last();
        assert(stably_sorted(o2, keys, n)) by {
            assert forall|j: int| 0 <= j < o2.len() implies 0 <= #[trigger] o2[j] < n by {
                assert(o2[j] == order[j]);
            }
            assert forall|j: int, k: int|
                0 <= j < k < o2.len() implies keys[#[trigger] o2[j]] <= keys[#[trigger] o2[k]] by {
                assert(o2[j] == order[j] && o2[k] == order[k]);
            }
            assert forall|j: int, k: int|
                0 <= j < k < o2.len() && keys[o2[j]] == keys[o2[k]] implies #[trigger] o2[j]
                < #[trigger] o2[k] by {
                assert(o2[j] == order[j] && o2[k] == order[k]);
            }
        }
        lemma_located_only_sorted(spans, o2, keys, n);
        let prev = located_only(spans, o2);
        assert forall|j: int| 0 <= j < prev.len() implies #[trigger] order.contains(prev[j]) by {
            assert(o2.contains(prev[j]));
            let i = choose|i: int| 0 <= i < o2.len() && o2[i] == prev[j];
            assert(order[i] == prev[j]);
        }
        if line_key(spans[x]) > 0 {
            let l = prev.push(x);
            assert(located_only(spans, order) == l);
            assert forall|j: int| 0 <= j < prev.len() implies #[trigger] o2.contains(prev[j]) by {}
            assert forall|j: int| 0 <= j < l.len() implies 0 <= #[trigger] l[j] < n by {
                if j < prev.len() {
                    assert(l[j] == prev[j]);
                }
            }
            assert forall|j: int, k: int| 0 <= j < k < l.len() implies l[j] != l[k] by {
                if k == prev.len() {
                    assert(o2.contains(prev[j]));
                    let i = choose|i: int| 0 <= i < o2.len() && o2[i] == prev[j];
                    assert(order[i] == prev[j]);
                    assert(order[i] != order[order.len() - 1]);
                } else {
                    assert(l[j] == prev[j] && l[k] == prev[k]);
                }
            }
            assert forall|j: int, k: int|
                0 <= j < k < l.len() implies keys[#[trigger] l[j]] <= keys[#[trigger] l[k]] by {
                if k == prev.len() {
                    assert(o2.contains(prev[j]));
                    let i = choose|i: int| 0 <= i < o2.len() && o2[i] == prev[j];
                    assert(order[i] == prev[j]);
                    assert(keys[order[i]] <= keys[order[order.len() - 1]]);
                } else {
                    assert(l[j] == prev[j] && l[k] == prev[k]);
                }
            }
            assert forall|j: int, k: int|
                0 <= j < k < l.len() && keys[l[j]] == keys[l[k]] implies #[trigger] l[j]
                < #[trigger] l[k] by {
                if k == prev.len() {
                    assert(o2.contains(prev[j]));
                    let i = choose|i: int| 0 <= i < o2.len() && o2[i] == prev[j];
                    assert(order[i] == prev[j]);
                    assert(order[i] < order[order.len() - 1]);
                } else {
                    assert(l[j] == prev[j] && l[k] == prev[k]);
                }
            }
            assert forall|j: int| 0 <= j < l.len() implies #[trigger] order.contains(l[j]) by {
                if j == prev.len() {
                    assert(order[order.len() - 1] == l[j]);
                } else {
                    assert(l[j] == prev[j]);
                }
            }
        }
    }
}

/// Every span of a diagnostic with a positive starting line is drawn
/// exactly once and no other span is drawn: the block is its heading line
/// followed by one `File:` entry per drawn span, the drawn spans being
/// exactly those with a positive line, each once, in stable line order.
pub proof fn lemma_every_located_span_drawn_once(d: DiagnosticRecord)
    ensures
        diagnostic_entry(d) == "\nDiagnostic: ["@ + text_or(d.code, UNKNOWN_CODE@) + "] "@
            + text_or(d.message, DEFAULT_MESSAGE@) + "\n"@ + joined(
            entries_of(d.spans@, drawn_spans(d)),
        ),
        forall|q: int|
            0 <= q < d.spans@.len() ==> (#[trigger] drawn_spans(d).contains(q) <==> line_key(
                d.spans@[q],
            ) > 0),
        stably_sorted(drawn_spans(d), line_keys(d.spans@), d.spans@.len() as int),
        forall|i: int|
            0 <= i < drawn_spans(d).len() ==> starts_with(
                #[trigger] entries_of(d.spans@, drawn_spans(d))[i],
                "  File: "@,
            ),
{
    let spans = d.spans@;
    let keys = line_keys(spans);
    let order = line_order(keys);
    lemma_line_order_is_stable_sort(keys);
    lemma_span_entries_located(spans, order);
    lemma_located_only_sorted(spans, order, keys, spans.len() as int);
    let drawn = drawn_spans(d);
    assert forall|q: int| 0 <= q < spans.len() implies (#[trigger] drawn.contains(q) <==> line_key(
        spans[q],
    ) > 0) by {
        assert(order.contains(q));
    }
    assert forall|i: int| 0 <= i < drawn.len() implies starts_with(
        #[trigger] entries_of(spans, drawn)[i],
        "  File: "@,
    ) by {
        let q = drawn[i];
        assert(drawn.contains(q));
        assert(order.contains(q));
        let s = spans[q];
        assert(line_key(s) > 0);
        let e = span_entry(s);
        assert(e.subrange(0, "  File: "@.len() as int) =~= "  File: "@);
    }
}

/// The blocks of a list of diagnostics, in order.
pub open spec fn diagnostic_entries(ds: Seq<DiagnosticRecord>) -> Seq<char>
    decreases ds.len(),
{
    if ds.len() == 0 {
        seq![]
    } else {
        diagnostic_entries(ds.drop_last()) + diagnostic_entry(ds.last())
    }
}

/// Some span of some diagnostic has a positive starting line.
pub open spec fn has_located_span(ds: Seq<DiagnosticRecord>) -> bool {
    exists|i: int, j: int|
        0 <= i < ds.len() && 0 <= j < ds[i].spans@.len() && line_key(#[trigger] ds[i].spans@[j])
            > 0
}

/// The whole timeline: the all-clear line where there is no diagnostic;
/// else the header, the diagnostic blocks, and a closing note where no span
/// could be placed on a line.
pub open spec fn ownership_timeline(ds: Seq<DiagnosticRecord>) -> Seq<char> {
    if ds.len() == 0 {
        ALL_CLEAR@
    } else if has_located_span(ds) {
        TIMELINE_HEADER@ + diagnostic_entries(ds)
    } else {
        TIMELINE_HEADER@ + diagnostic_entries(ds) + NO_SPANS_NOTE@
    }
}

fn push_optional(t: &mut String, o: &Option<String>, default: &str)
    ensures
        final(t)@ == old(t)@ + text_or(*o, default@),
{
    match o {
        Some(s) => push_text(t, s.as_str()),
        None => push_text(t, default),
    }
}

/// Appends the lines of one span.
fn push_span(t: &mut String, s: &SpanRecord)
    ensures
        final(t)@ == old(t)@ + span_entry(*s),
{
    let line = span_line(s);
    if line == 0 {
        assert(old(t)@ + span_entry(*s) =~= old(t)@);
        return;
    }
    let ghost t0 = t@;
    let ghost fixed = "  File: "@ + text_or(s.file_name, DEFAULT_FILE@) + " (Line "@ + decimal(
        line_key(*s),
    ) + ")\n  Code: "@;
    push_text(t, "  File: ");
    push_optional(t, &s.file_name, DEFAULT_FILE);
    push_text(t, " (Line ");
    push_decimal(t, line);
    push_text(t, ")\n  Code: ");
    assert(t@ =~= t0 + fixed);
    proof {
        reveal_strlit("");
        assert(""@ =~= Seq::<char>::empty());
    }
    let code = match &s.text {
        Some(x) => trim(x.as_str()),
        None => trim(""),
    };
    push_text(t, code);
    assert(t@ =~= t0 + fixed + trim_whitespace(text_or(s.text, seq![])));
    push_text(t, "\n  Map:  ");
    let primary = match s.is_primary {
        Some(b) => b,
        None => false,
    };
    if primary {
        push_text(t, PRIMARY_GLYPH);
    } else {
        push_text(t, SECONDARY_GLYPH);
    }
    push_text(t, "\n");
    let ghost t1 = t@;
    match &s.label {
        Some(label) => {
            if !label.as_str().is_empty() {
                push_text(t, "  Note: ^-- ");
                push_text(t, label.as_str());
                push_text(t, "\n");
            }
        },
        None => {},
    }
    assert(t@ =~= t1 + span_note(*s));
    push_text(t, "\n");
    assert(t@ =~= t0 + span_entry(*s));
}

/// Appends the block of one diagnostic; tells whether one of its spans has a
/// positive starting line.
fn push_diagnostic(t: &mut String, d: &DiagnosticRecord) -> (located: bool)
    ensures
        final(t)@ == old(t)@ + diagnostic_entry(*d),
        located == exists|j: int| 0 <= j < d.spans@.len() && line_key(#[trigger] d.spans@[j]) > 0,
{
    let ghost t0 = t@;
    push_text(t, "\nDiagnostic: [");
    push_optional(t, &d.code, UNKNOWN_CODE);
    push_text(t, "] ");
    push_optional(t, &d.message, DEFAULT_MESSAGE);
    push_text(t, "\n");
    let ghost t1 = t@;
    let ghost keys = line_keys(d.spans@);
    let ghost full = line_order(keys);
    proof {
        lemma_line_order_is_stable_sort(keys);
    }
    let order = span_order(&d.spans);
    let mut located = false;
    let mut j: usize = 0;
    while j < order.len()
        invariant
            j <= order@.len(),
            order@.len() == full.len(),
            full.len() == d.spans@.len(),
            forall|q: int| 0 <= q < order@.len() ==> order@[q] as int == full[q],
            forall|q: int| 0 <= q < full.len() ==> 0 <= #[trigger] full[q] < d.spans@.len(),
            t@ == t1 + span_entries(d.spans@, full.take(j as int)),
            located == exists|q: int| 0 <= q < j && line_key(d.spans@[#[trigger] full[q]]) > 0,
        decreases order@.len() - j,
    {
        let k = order[j];
        assert(0 <= full[j as int] < d.spans@.len());
        assert(full.take(j + 1).drop_last() =~= full.take(j as int));
        push_span(t, &d.spans[k]);
        assert(t@ =~= t1 + span_entries(d.spans@, full.take(j + 1)));
        if span_line(&d.spans[k]) > 0 {
            located = true;
        }
        j += 1;
    }
    assert(full.take(full.len() as int) =~= full);
    assert(t@ =~= t0 + diagnostic_entry(*d));
    proof {
        if exists|q: int| 0 <= q < d.spans@.len() && line_key(#[trigger] d.spans@[q]) > 0 {
            let q = choose|q: int| 0 <= q < d.spans@.len() && line_key(#[trigger] d.spans@[q]) > 0;
            assert(full.contains(q));
            let r = choose|r: int| 0 <= r < full.len() && full[r] == q;
            assert(line_key(d.spans@[full[r]]) > 0);
        }
    }
    located
}

/// The ASCII ownership timeline drawn from the compiler diagnostics.
pub fn ownership_timeline_text(ds: &Vec<DiagnosticRecord>) -> (t: String)
    ensures
        t@ == ownership_timeline(ds@),
{
    if ds.len() == 0 {
        return String::from_str(ALL_CLEAR);
    }
    let mut t = String::from_str(TIMELINE_HEADER);
    let mut located = false;
    let mut i: usize = 0;
    while i < ds.len()
        invariant
            i <= ds@.len(),
            t@ == TIMELINE_HEADER@ + diagnostic_entries(ds@.take(i as int)),
            located == exists|a: int, b: int|
                0 <= a < i && 0 <= b < ds@[a].spans@.len() && line_key(
                    #[trigger] ds@[a].spans@[b],
                ) > 0,
        decreases ds@.len() - i,
    {
        assert(ds@.take(i + 1).drop_last() =~= ds@.take(i as int));
        let found = push_diagnostic(&mut t, &ds[i]);
        assert(t@ =~= TIMELINE_HEADER@ + diagnostic_entries(ds@.take(i + 1)));
        if found {
            located = true;
        }
        i += 1;
    }
    assert(ds@.take(ds@.len() as int) =~= ds@);
    if !located {
        push_text(&mut t, NO_SPANS_NOTE);
    }
    t
}

/// The lifetime map of a project: the positions of cargo's output lines
/// that are compiler messages, their diagnostics and the JSON text of their
/// messages, and the timeline drawn from those diagnostics.
pub struct LifetimeMap {
    pub positions: Vec<usize>,
    pub diagnostics: Vec<DiagnosticRecord>,
    pub raw_messages: Vec<String>,
    pub timeline: String,
}

/// Reads each line of `cargo check --message-format=json` output, keeps the
/// compiler messages in order and draws their timeline.
pub fn lifetime_map(lines: &Vec<String>) -> (r: LifetimeMap)
    ensures
        r.positions@.len() == compiler_message_positions(line_readings(lines@)).len(),
        forall|j: int|
            0 <= j < r.positions@.len() ==> r.positions@[j] as int == compiler_message_positions(
                line_readings(lines@),
            )[j],
        r.diagnostics@.len() == r.positions@.len(),
        r.raw_messages@.len() == r.positions@.len(),
        forall|j: int|
            0 <= j < r.diagnostics@.len() ==> (#[trigger] line_readings(lines@)[r.positions@[j] as int]).unwrap().1
                == Some((diagnostic_view(r.diagnostics@[j]), r.raw_messages@[j]@)),
        r.timeline@ == ownership_timeline(r.diagnostics@),
{
    let ghost readings = line_readings(lines@);
    let mut positions: Vec<usize> = Vec::new();
    let mut diagnostics: Vec<DiagnosticRecord> = Vec::new();
    let mut raw_messages: Vec<String> = Vec::new();
    let mut i: usize = 0;
    while i < lines.len()
        invariant
            i <= lines@.len(),
            readings == line_readings(lines@),
            positions@.len() == compiler_message_positions(readings.take(i as int)).len(),
            forall|j: int|
                0 <= j < positions@.len() ==> positions@[j] as int == compiler_message_positions(
                    readings.take(i as int),
                )[j],
            forall|j: int| 0 <= j < positions@.len() ==> positions@[j] < i,
            diagnostics@.len() == positions@.len(),
            raw_messages@.len() == positions@.len(),
            forall|j: int|
                0 <= j < diagnostics@.len() ==> (#[trigger] readings[positions@[j] as int]).unwrap().1
                    == Some((diagnostic_view(diagnostics@[j]), raw_messages@[j]@)),
        decreases lines@.len() - i,
    {
        assert(readings.take(i + 1).drop_last() =~= readings.take(i as int));
        assert(readings[i as int] == cargo_line(lines@[i as int]@));
        match read_cargo_line(lines[i].as_str()) {
            Some(c) => {
                let is_message = match &c.0 {
                    Some(reason) => text_eq(reason.as_str(), COMPILER_MESSAGE_REASON),
                    None => false,
                };
                match c.1 {
                    Some(m) => {
                        if is_message {
                            let d = diagnostic_from(&m);
                            positions.push(i);
                            diagnostics.push(d);
                            raw_messages.push(m.3);
                        }
                    },
                    None => {},
                }
            },
            None => {},
        }
        i += 1;
    }
    assert(readings.take(lines@.len() as int) =~= readings);
    let timeline = ownership_timeline_text(&diagnostics);
    LifetimeMap { positions, diagnostics, raw_messages, timeline }
}

} // verus!
