//! Encoding of query results and notifications as self-describing JSON text:
//! an ordered array whose elements are row objects keyed by resolved column
//! names, bare affected-row counts, or `{channel, payload}` objects.
use vstd::prelude::*;

use crate::errors::BridgeError;
use crate::json::{
    check_json_number, chars_to_string, dec_digits, dec_int, is_json_number, json_string,
    push_i64, push_json_string, push_str_chars, push_u64,
};

verus! {

/// One decoded column value: the scalar shapes the engine can deliver. A
/// floating-point column is carried as its pre-rendered decimal token
/// (`Number`), which is written into the output verbatim once validated.
pub enum ColumnValue {
    Null,
    Bool(bool),
    Int(i64),
    Number(String),
    Text(String),
}

/// The mathematical model of a column value.
pub enum ValueModel {
    Null,
    Bool(bool),
    Int(int),
    Number(Seq<char>),
    Text(Seq<char>),
}

impl View for ColumnValue {
    type V = ValueModel;

    open spec fn view(&self) -> ValueModel {
        match self {
            ColumnValue::Null => ValueModel::Null,
            ColumnValue::Bool(b) => ValueModel::Bool(*b),
            ColumnValue::Int(i) => ValueModel::Int(*i as int),
            ColumnValue::Number(s) => ValueModel::Number(s@),
            ColumnValue::Text(s) => ValueModel::Text(s@),
        }
    }
}

/// One column of a result row: its name as delivered by the engine, and its
/// decoded value.
pub struct SimpleColumn {
    pub name: String,
    pub value: ColumnValue,
}

/// The mathematical model of a column.
pub struct ColumnModel {
    pub name: Seq<char>,
    pub value: ValueModel,
}

impl View for SimpleColumn {
    type V = ColumnModel;

    open spec fn view(&self) -> ColumnModel {
        ColumnModel { name: self.name@, value: self.value@ }
    }
}

/// One message of a simple-query result stream, in server response order.
pub enum SimpleMessage {
    /// A data row.
    Row(Vec<SimpleColumn>),
    /// Completion of one statement, with its affected-row count.
    CommandComplete(u64),
}

/// The mathematical model of a result message.
pub enum MessageModel {
    Row(Seq<ColumnModel>),
    CommandComplete(nat),
}

impl View for SimpleMessage {
    type V = MessageModel;

    open spec fn view(&self) -> MessageModel {
        match self {
            SimpleMessage::Row(cols) => MessageModel::Row(
                cols@.map_values(|c: SimpleColumn| c@),
            ),
            SimpleMessage::CommandComplete(n) => MessageModel::CommandComplete(*n as nat),
        }
    }
}

/// One asynchronous engine notification.
pub struct Notification {
    pub channel: String,
    pub payload: String,
}

/// The mathematical model of a notification.
pub struct NotificationModel {
    pub channel: Seq<char>,
    pub payload: Seq<char>,
}

impl View for Notification {
    type V = NotificationModel;

    open spec fn view(&self) -> NotificationModel {
        NotificationModel { channel: self.channel@, payload: self.payload@ }
    }
}

/// The parts of an array or object, joined by commas.
pub open spec fn join_comma(parts: Seq<Seq<char>>) -> Seq<char>
    decreases parts.len(),
{
    if parts.len() == 0 {
        Seq::empty()
    } else if parts.len() == 1 {
        parts[0]
    } else {
        join_comma(parts.drop_last()) + seq![','] + parts.last()
    }
}

/// The engine's sentinel name for an unaliased computed column.
pub open spec fn sentinel() -> Seq<char> {
    seq!['?', 'c', 'o', 'l', 'u', 'm', 'n', '?']
}

/// The synthetic name given to the column at zero-based position `i` when its
/// own name is the sentinel or duplicates an earlier name in the same row.
pub open spec fn synth_name(i: int) -> Seq<char> {
    seq!['c', 'o', 'l', 'u', 'm', 'n', '_'] + dec_digits(i as nat)
}

/// The object keys of one row: each raw column name in column order, rewritten
/// to the synthetic positional name where it is the sentinel or repeats a name
/// already used earlier in the row.
pub open spec fn resolve_names(names: Seq<Seq<char>>) -> Seq<Seq<char>>
    decreases names.len(),
{
    if names.len() == 0 {
        Seq::empty()
    } else {
        let prefix = resolve_names(names.drop_last());
        let raw = names.last();
        let resolved = if raw == sentinel() || prefix.contains(raw) {
            synth_name(names.len() - 1)
        } else {
            raw
        };
        prefix.push(resolved)
    }
}

/// The raw column names of a row, in column order.
pub open spec fn raw_names(cols: Seq<ColumnModel>) -> Seq<Seq<char>> {
    cols.map_values(|c: ColumnModel| c.name)
}

/// The JSON text of one column value.
pub open spec fn value_json(v: ValueModel) -> Seq<char> {
    match v {
        ValueModel::Null => seq!['n', 'u', 'l', 'l'],
        ValueModel::Bool(b) => if b {
            seq!['t', 'r', 'u', 'e']
        } else {
            seq!['f', 'a', 'l', 's', 'e']
        },
        ValueModel::Int(i) => dec_int(i),
        ValueModel::Number(s) => s,
        ValueModel::Text(s) => json_string(s),
    }
}

/// One `"key":value` member of an object.
pub open spec fn pair_json(name: Seq<char>, v: ValueModel) -> Seq<char> {
    json_string(name) + seq![':'] + value_json(v)
}

/// The JSON text of one row: an object with the resolved names as keys, in
/// column order.
pub open spec fn row_json(cols: Seq<ColumnModel>) -> Seq<char> {
    let names = resolve_names(raw_names(cols));
    seq!['{'] + join_comma(Seq::new(cols.len(), |i: int| pair_json(names[i], cols[i].value)))
        + seq!['}']
}

/// The JSON text of one result message: a row object, or a bare count.
pub open spec fn message_json(m: MessageModel) -> Seq<char> {
    match m {
        MessageModel::Row(cols) => row_json(cols),
        MessageModel::CommandComplete(n) => dec_digits(n),
    }
}

/// The JSON text of a whole result stream: the messages' texts, in server
/// response order, as one array.
pub open spec fn simple_json(ms: Seq<MessageModel>) -> Seq<char> {
    seq!['['] + join_comma(ms.map_values(|m: MessageModel| message_json(m))) + seq![']']
}

/// The JSON text of one notification: an object with the channel and payload.
pub open spec fn notification_json(n: NotificationModel) -> Seq<char> {
    seq!['{', '"', 'c', 'h', 'a', 'n', 'n', 'e', 'l', '"', ':'] + json_string(n.channel)
        + seq![',', '"', 'p', 'a', 'y', 'l', 'o', 'a', 'd', '"', ':'] + json_string(n.payload)
        + seq!['}']
}

/// The JSON text of a notification drain: the notifications, in arrival order,
/// as one array.
pub open spec fn notifications_json(ns: Seq<NotificationModel>) -> Seq<char> {
    seq!['['] + join_comma(ns.map_values(|n: NotificationModel| notification_json(n))) + seq![']']
}

/// Whether a value can be encoded: a pre-rendered `Number` must be a complete
/// JSON number token; every other value always can be.
pub open spec fn value_wf(v: ValueModel) -> bool {
    match v {
        ValueModel::Number(s) => is_json_number(s),
        _ => true,
    }
}

/// Whether every value of a row can be encoded.
pub open spec fn row_wf(cols: Seq<ColumnModel>) -> bool {
    forall|i: int| 0 <= i < cols.len() ==> value_wf(#[trigger] cols[i].value)
}

/// Whether every value of a message can be encoded.
pub open spec fn message_wf(m: MessageModel) -> bool {
    match m {
        MessageModel::Row(cols) => row_wf(cols),
        MessageModel::CommandComplete(_) => true,
    }
}

/// Whether every value of a result stream can be encoded.
pub open spec fn messages_wf(ms: Seq<MessageModel>) -> bool {
    forall|i: int| 0 <= i < ms.len() ==> message_wf(#[trigger] ms[i])
}

/// The model of a result stream.
pub open spec fn messages_model(ms: Seq<SimpleMessage>) -> Seq<MessageModel> {
    ms.map_values(|m: SimpleMessage| m@)
}

/// Resolving rewrites names in place: it keeps the length, and position `i`
/// holds the synthetic positional name exactly where the raw name is the
/// sentinel or repeats an earlier resolved name, and the raw name otherwise.
pub proof fn lemma_resolve_len(names: Seq<Seq<char>>)
    ensures
        resolve_names(names).len() == names.len(),
    decreases names.len(),
{
    if names.len() > 0 {
        lemma_resolve_len(names.drop_last());
    }
}

/// Resolution of a prefix agrees with resolution of the whole: each name's
/// rewriting depends only on the names before it.
pub proof fn lemma_resolve_prefix(names: Seq<Seq<char>>, j: int)
    requires
        0 <= j <= names.len(),
    ensures
        resolve_names(names.take(j)) =~= resolve_names(names).take(j),
    decreases names.len(),
{
    lemma_resolve_len(names);
    if names.len() == 0 {
    } else if j == names.len() {
        assert(names.take(j) =~= names);
    } else {
        lemma_resolve_len(names.drop_last());
        lemma_resolve_prefix(names.drop_last(), j);
        assert(names.drop_last().take(j) =~= names.take(j));
        assert(resolve_names(names).take(j) =~= resolve_names(names.drop_last()).take(j));
    }
}

/// The affected-row count of a completion message (zero for a row).
pub open spec fn count_of(m: MessageModel) -> nat {
    match m {
        MessageModel::CommandComplete(n) => n,
        MessageModel::Row(_) => 0,
    }
}

/// A result stream holding only command completions serializes to a bare
/// array of the affected-row counts, in order.
pub proof fn lemma_commands_only(ms: Seq<MessageModel>)
    requires
        forall|i: int| 0 <= i < ms.len() ==> (#[trigger] ms[i]) is CommandComplete,
    ensures
        simple_json(ms) == seq!['['] + join_comma(
            Seq::new(ms.len(), |i: int| dec_digits(count_of(ms[i]))),
        ) + seq![']'],
{
    assert(ms.map_values(|m: MessageModel| message_json(m)) =~~= Seq::new(
        ms.len(),
        |i: int| dec_digits(count_of(ms[i])),
    ));
}

/// A stream of one command completion with count `n` serializes to `[n]`.
pub proof fn lemma_single_count(n: nat)
    ensures
        simple_json(seq![MessageModel::CommandComplete(n)]) == seq!['['] + dec_digits(n)
            + seq![']'],
{
    let ms = seq![MessageModel::CommandComplete(n)];
    assert(ms.map_values(|m: MessageModel| message_json(m)) =~~= seq![dec_digits(n)]);
    assert(simple_json(ms) =~= seq!['['] + dec_digits(n) + seq![']']);
}

/// Each row serializes to an object keyed in column order: the key at
/// position `i` is the synthetic positional name exactly where the raw name
/// is the anonymous-column sentinel or repeats a name already used earlier in
/// the same row, and the raw name otherwise.
pub proof fn lemma_row_keys(cols: Seq<ColumnModel>, i: int)
    requires
        0 <= i < cols.len(),
    ensures
        resolve_names(raw_names(cols)).len() == cols.len(),
        resolve_names(raw_names(cols))[i] == (if raw_names(cols)[i] == sentinel()
            || resolve_names(raw_names(cols)).take(i).contains(raw_names(cols)[i]) {
            synth_name(i)
        } else {
            raw_names(cols)[i]
        }),
        message_json(MessageModel::Row(cols)) == seq!['{'] + join_comma(
            Seq::new(
                cols.len(),
                |k: int| pair_json(resolve_names(raw_names(cols))[k], cols[k].value),
            ),
        ) + seq!['}'],
{
    let names = raw_names(cols);
    lemma_resolve_len(names);
    lemma_resolve_prefix(names, i);
    lemma_resolve_prefix(names, i + 1);
    let sub = names.take(i + 1);
    assert(sub.drop_last() =~= names.take(i));
    assert(sub.last() == names[i]);
    assert(resolve_names(sub) == resolve_names(names.take(i)).push(
        if names[i] == sentinel() || resolve_names(names.take(i)).contains(names[i]) {
            synth_name(i)
        } else {
            names[i]
        },
    ));
    assert(resolve_names(names)[i] == resolve_names(sub)[i]);
}

/// A drain that found no notifications serializes to the empty array.
pub proof fn lemma_empty_drain()
    ensures
        notifications_json(Seq::<NotificationModel>::empty()) == seq!['[', ']'],
{
    let ns = Seq::<NotificationModel>::empty();
    assert(ns.map_values(|n: NotificationModel| notification_json(n)) =~~= Seq::<Seq<char>>::empty());
    assert(notifications_json(ns) =~= seq!['[', ']']);
}

fn string_eq_str(a: &String, lit: &str) -> (r: bool)
    ensures
        r == (a@ == lit@),
{
    let b = String::from_str(lit);
    a.eq(&b)
}

fn contains_name(used: &Vec<String>, name: &String) -> (r: bool)
    ensures
        r == used@.map_values(|s: String| s@).contains(name@),
{
    let ghost views = used@.map_values(|s: String| s@);
    let mut i: usize = 0;
    while i < used.len()
        invariant
            i <= used.len(),
            views == used@.map_values(|s: String| s@),
            forall|k: int| 0 <= k < i ==> views[k] != name@,
        decreases used.len() - i,
    {
        if used[i].eq(name) {
            assert(views[i as int] == name@);
            return true;
        }
        i = i + 1;
    }
    assert(forall|k: int| 0 <= k < views.len() ==> views[k] != name@);
    false
}

/// The synthetic positional name for position `i`, as a string.
fn synth_string(i: usize) -> (r: String)
    ensures
        r@ == synth_name(i as int),
{
    let mut buf: Vec<char> = Vec::new();
    buf.push('c');
    buf.push('o');
    buf.push('l');
    buf.push('u');
    buf.push('m');
    buf.push('n');
    buf.push('_');
    assert(buf@ =~= seq!['c', 'o', 'l', 'u', 'm', 'n', '_']);
    push_u64(&mut buf, i as u64);
    let r = chars_to_string(buf);
    assert(r@ =~= synth_name(i as int));
    r
}

fn push_value(out: &mut Vec<char>, v: &ColumnValue) -> (r: bool)
    ensures
        r == value_wf(v@),
        r ==> final(out)@ == old(out)@ + value_json(v@),
{
    match v {
        ColumnValue::Null => {
            out.push('n');
            out.push('u');
            out.push('l');
            out.push('l');
            assert(final(out)@ =~= old(out)@ + value_json(v@));
            true
        },
        ColumnValue::Bool(b) => {
            if *b {
                out.push('t');
                out.push('r');
                out.push('u');
                out.push('e');
            } else {
                out.push('f');
                out.push('a');
                out.push('l');
                out.push('s');
                out.push('e');
            }
            assert(final(out)@ =~= old(out)@ + value_json(v@));
            true
        },
        ColumnValue::Int(i) => {
            push_i64(out, *i);
            true
        },
        ColumnValue::Number(s) => {
            if check_json_number(s.as_str()) {
                push_str_chars(out, s.as_str());
                true
            } else {
                false
            }
        },
        ColumnValue::Text(s) => {
            push_json_string(out, s.as_str());
            true
        },
    }
}

fn push_row(out: &mut Vec<char>, cols: &Vec<SimpleColumn>) -> (r: bool)
    ensures
        r == row_wf(cols@.map_values(|c: SimpleColumn| c@)),
        r ==> final(out)@ == old(out)@ + row_json(cols@.map_values(|c: SimpleColumn| c@)),
{
    let ghost model = cols@.map_values(|c: SimpleColumn| c@);
    let ghost names = raw_names(model);
    let ghost resolved = resolve_names(names);
    proof {
        lemma_resolve_len(names);
    }
    out.push('{');
    let mut used: Vec<String> = Vec::new();
    let mut j: usize = 0;
    while j < cols.len()
        invariant
            j <= cols.len(),
            model == cols@.map_values(|c: SimpleColumn| c@),
            names == raw_names(model),
            resolved == resolve_names(names),
            resolved.len() == names.len() == model.len() == cols@.len(),
            used@.map_values(|s: String| s@) =~= resolved.take(j as int),
            forall|k: int| 0 <= k < j ==> value_wf(#[trigger] model[k].value),
            out@ == old(out)@ + seq!['{'] + join_comma(
                Seq::new(j as nat, |i: int| pair_json(resolved[i], model[i].value)),
            ),
        decreases cols.len() - j,
    {
        proof {
            lemma_resolve_prefix(names, j as int);
            lemma_resolve_prefix(names, j as int + 1);
            let sub = names.take(j as int + 1);
            assert(sub.drop_last() =~= names.take(j as int));
            assert(sub.last() == names[j as int]);
            assert(resolve_names(sub) == resolve_names(names.take(j as int)).push(
                if names[j as int] == sentinel() || resolve_names(names.take(j as int)).contains(
                    names[j as int],
                ) {
                    synth_name(j as int)
                } else {
                    names[j as int]
                },
            ));
            assert(resolve_names(sub) =~= resolved.take(j as int + 1));
            assert(resolved[j as int] == resolve_names(sub)[j as int]);
            assert(resolve_names(names.take(j as int)) =~= resolved.take(j as int));
            assert(model[j as int] == cols@[j as int]@);
            assert(names[j as int] == model[j as int].name);
        }
        let is_sent = string_eq_str(&cols[j].name, "?column?");
        proof {
            reveal_strlit("?column?");
            assert("?column?"@ =~= sentinel());
        }
        let is_dup = contains_name(&used, &cols[j].name);
        let resolved_name: String = if is_sent || is_dup {
            synth_string(j)
        } else {
            cols[j].name.clone()
        };
        assert(resolved_name@ == resolved[j as int]);
        if j > 0 {
            out.push(',');
        }
        push_json_string(out, resolved_name.as_str());
        out.push(':');
        if !push_value(out, &cols[j].value) {
            assert(!value_wf(model[j as int].value));
            return false;
        }
        used.push(resolved_name);
        proof {
            let parts_old = Seq::new(j as nat, |i: int| pair_json(resolved[i], model[i].value));
            let parts_new = Seq::new(
                (j + 1) as nat,
                |i: int| pair_json(resolved[i], model[i].value),
            );
            assert(parts_new.drop_last() =~= parts_old);
            assert(used@.map_values(|s: String| s@) =~= resolved.take(j as int + 1));
            assert(out@ =~= old(out)@ + seq!['{'] + join_comma(parts_new));
        }
        j = j + 1;
    }
    out.push('}');
    proof {
        let parts = Seq::new(model.len(), |i: int| pair_json(resolved[i], model[i].value));
        assert(Seq::new(j as nat, |i: int| pair_json(resolved[i], model[i].value)) =~= parts);
        assert(final(out)@ =~= old(out)@ + row_json(model));
    }
    true
}

/// Encodes a simple-query result stream as one JSON array: each row becomes an
/// object keyed by the resolved column names in column order, each completion
/// a bare affected-row count, all in server response order. Fails, returning
/// no partial output, exactly when some pre-rendered number token is not a
/// complete JSON number.
pub fn serialize_simple(result: &Vec<SimpleMessage>) -> (r: Result<String, BridgeError>)
    ensures
        match r {
            Ok(s) => messages_wf(messages_model(result@)) && s@ == simple_json(
                messages_model(result@),
            ),
            Err(e) => !messages_wf(messages_model(result@)) && e is Serialization,
        },
{
    let ghost model = messages_model(result@);
    let mut out: Vec<char> = Vec::new();
    out.push('[');
    let mut k: usize = 0;
    while k < result.len()
        invariant
            k <= result.len(),
            model == messages_model(result@),
            model.len() == result@.len(),
            forall|i: int| 0 <= i < k ==> message_wf(#[trigger] model[i]),
            out@ == seq!['['] + join_comma(Seq::new(k as nat, |i: int| message_json(model[i]))),
        decreases result.len() - k,
    {
        if k > 0 {
            out.push(',');
        }
        let ok = match &result[k] {
            SimpleMessage::CommandComplete(n) => {
                push_u64(&mut out, *n);
                true
            },
            SimpleMessage::Row(cols) => push_row(&mut out, cols),
        };
        if !ok {
            assert(!message_wf(model[k as int]));
            return Err(BridgeError::Serialization(String::from_str("unencodable number token")));
        }
        proof {
            let parts_old = Seq::new(k as nat, |i: int| message_json(model[i]));
            let parts_new = Seq::new((k + 1) as nat, |i: int| message_json(model[i]));
            assert(parts_new.drop_last() =~= parts_old);
            assert(message_json(model[k as int]) == match model[k as int] {
                MessageModel::Row(cols) => row_json(cols),
                MessageModel::CommandComplete(n) => dec_digits(n),
            });
            assert(out@ =~= seq!['['] + join_comma(parts_new));
        }
        k = k + 1;
    }
    out.push(']');
    proof {
        assert(Seq::new(k as nat, |i: int| message_json(model[i])) =~~= model.map_values(
            |m: MessageModel| message_json(m),
        ));
        assert(out@ =~= simple_json(model));
    }
    Ok(chars_to_string(out))
}

/// Encodes drained notifications as one JSON array of `{channel, payload}`
/// objects, in arrival order.
pub fn serialize_notifications(items: &Vec<Notification>) -> (r: String)
    ensures
        r@ == notifications_json(items@.map_values(|n: Notification| n@)),
{
    let ghost model = items@.map_values(|n: Notification| n@);
    let mut out: Vec<char> = Vec::new();
    out.push('[');
    let mut k: usize = 0;
    while k < items.len()
        invariant
            k <= items.len(),
            model == items@.map_values(|n: Notification| n@),
            model.len() == items@.len(),
            out@ == seq!['['] + join_comma(
                Seq::new(k as nat, |i: int| notification_json(model[i])),
            ),
        decreases items.len() - k,
    {
        if k > 0 {
            out.push(',');
        }
        let ghost before = out@;
        out.push('{');
        out.push('"');
        out.push('c');
        out.push('h');
        out.push('a');
        out.push('n');
        out.push('n');
        out.push('e');
        out.push('l');
        out.push('"');
        out.push(':');
        push_json_string(&mut out, items[k].channel.as_str());
        out.push(',');
        out.push('"');
        out.push('p');
        out.push('a');
        out.push('y');
        out.push('l');
        out.push('o');
        out.push('a');
        out.push('d');
        out.push('"');
        out.push(':');
        push_json_string(&mut out, items[k].payload.as_str());
        out.push('}');
        proof {
            assert(out@ =~= before + notification_json(model[k as int]));
            let parts_old = Seq::new(k as nat, |i: int| notification_json(model[i]));
            let parts_new = Seq::new((k + 1) as nat, |i: int| notification_json(model[i]));
            assert(parts_new.drop_last() =~= parts_old);
            assert(out@ =~= seq!['['] + join_comma(parts_new));
        }
        k = k + 1;
    }
    out.push(']');
    proof {
        assert(Seq::new(k as nat, |i: int| notification_json(model[i])) =~~= model.map_values(
            |n: NotificationModel| notification_json(n),
        ));
        assert(out@ =~= notifications_json(model));
    }
    chars_to_string(out)
}

} // verus!
