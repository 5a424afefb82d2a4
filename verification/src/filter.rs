//! The instrument metadata filter and its JSON serialization.
//!
//! A filter is a set of independently optional criteria. Its serialized
//! form is a JSON object that holds exactly one entry per set field, under
//! the provider's fixed field names, and no entry at all for an unset
//! field.

use vstd::prelude::*;
use vstd::string::StrSliceExecFns;
use vstd::string::StringExecFns;

use crate::text::push_char;

verus! {

/// A set of optional instrument metadata criteria. Every field defaults to
/// unset, and an unset field is absent from the serialized output.
#[derive(Debug, Clone)]
pub struct InstrumentFilter {
    pub base_currency: Option<Vec<String>>,
    pub quote_currency: Option<Vec<String>>,
    pub instrument_type: Option<Vec<String>>,
    pub contract_type: Option<Vec<String>>,
    pub active: Option<bool>,
}

/// The character sequences of a list of strings.
pub open spec fn strings_view(v: Seq<String>) -> Seq<Seq<char>> {
    Seq::new(v.len(), |i: int| v[i]@)
}

/// The character sequences of an optional list of strings.
pub open spec fn opt_strings_view(v: Option<Vec<String>>) -> Option<Seq<Seq<char>>> {
    match v {
        Some(xs) => Some(strings_view(xs@)),
        None => None,
    }
}

/// JSON string-body escaping: `"` and `\` are preceded by a backslash,
/// every other character stands for itself.
pub open spec fn json_escaped_char(c: char) -> Seq<char> {
    if c == '"' {
        seq!['\\', '"']
    } else if c == '\\' {
        seq!['\\', '\\']
    } else {
        seq![c]
    }
}

/// JSON string-body escaping of a whole sequence.
pub open spec fn json_escaped(s: Seq<char>) -> Seq<char>
    decreases s.len(),
{
    if s.len() == 0 {
        Seq::<char>::empty()
    } else {
        json_escaped(s.drop_last()) + json_escaped_char(s.last())
    }
}

/// A JSON string: the escaped body between double quotes.
pub open spec fn json_string(s: Seq<char>) -> Seq<char> {
    seq!['"'] + json_escaped(s) + seq!['"']
}

/// The given parts joined with commas.
pub open spec fn join_comma(parts: Seq<Seq<char>>) -> Seq<char>
    decreases parts.len(),
{
    if parts.len() == 0 {
        Seq::<char>::empty()
    } else if parts.len() == 1 {
        parts[0]
    } else {
        join_comma(parts.drop_last()) + seq![','] + parts.last()
    }
}

/// A JSON array of strings.
pub open spec fn json_string_array(elems: Seq<Seq<char>>) -> Seq<char> {
    seq!['['] + join_comma(Seq::new(elems.len(), |i: int| json_string(elems[i]))) + seq![']']
}

/// The text of a JSON boolean.
pub open spec fn json_bool(b: bool) -> Seq<char> {
    if b {
        "true"@
    } else {
        "false"@
    }
}

/// One object entry: the quoted key, a colon, and the value text.
pub open spec fn filter_entry(key: Seq<char>, value: Seq<char>) -> Seq<char> {
    seq!['"'] + key + seq!['"', ':'] + value
}

/// The entries a string-list field contributes: one when set, none when
/// unset.
pub open spec fn list_field_entries(key: Seq<char>, v: Option<Seq<Seq<char>>>) -> Seq<Seq<char>> {
    match v {
        Some(elems) => seq![filter_entry(key, json_string_array(elems))],
        None => Seq::<Seq<char>>::empty(),
    }
}

/// The entries the active flag contributes: one when set, none when unset.
pub open spec fn active_field_entries(v: Option<bool>) -> Seq<Seq<char>> {
    match v {
        Some(b) => seq![filter_entry("active"@, json_bool(b))],
        None => Seq::<Seq<char>>::empty(),
    }
}

/// All entries of a filter, in field declaration order; an unset field
/// contributes none.
pub open spec fn filter_entries(f: InstrumentFilter) -> Seq<Seq<char>> {
    list_field_entries("baseCurrency"@, opt_strings_view(f.base_currency)) + list_field_entries(
        "quoteCurrency"@,
        opt_strings_view(f.quote_currency),
    ) + list_field_entries("type"@, opt_strings_view(f.instrument_type)) + list_field_entries(
        "contractType"@,
        opt_strings_view(f.contract_type),
    ) + active_field_entries(f.active)
}

/// The serialized filter: a JSON object of exactly the set fields.
pub open spec fn filter_json(f: InstrumentFilter) -> Seq<char> {
    seq!['{'] + join_comma(filter_entries(f)) + seq!['}']
}

/// True when no criterion is set.
pub open spec fn filter_is_unset(f: InstrumentFilter) -> bool {
    f.base_currency is None && f.quote_currency is None && f.instrument_type is None
        && f.contract_type is None && f.active is None
}

/// True when the entry text begins with the given key in quotes followed
/// by a colon, the form every object entry of a serialized filter takes.
pub open spec fn entry_has_key(e: Seq<char>, key: Seq<char>) -> bool {
    e.len() >= key.len() + 3 && e.subrange(0, key.len() as int + 3) == seq!['"'] + key + seq!['"', ':']
}

/// True when some entry of the serialized filter carries the given key.
pub open spec fn some_entry_has_key(f: InstrumentFilter, key: Seq<char>) -> bool {
    exists|i: int|
        0 <= i < filter_entries(f).len() && entry_has_key(#[trigger] filter_entries(f)[i], key)
}

/// An entry built for one key carries that key.
proof fn lemma_entry_has_own_key(k: Seq<char>, v: Seq<char>)
    ensures
        entry_has_key(filter_entry(k, v), k),
{
    assert(filter_entry(k, v).subrange(0, k.len() as int + 3) =~= seq!['"'] + k + seq!['"', ':']);
}

/// An entry built for one key does not carry a key whose first character
/// differs.
proof fn lemma_entry_other_key(k1: Seq<char>, k2: Seq<char>, v: Seq<char>)
    requires
        k1.len() >= 1,
        k2.len() >= 1,
        k1[0] != k2[0],
    ensures
        !entry_has_key(filter_entry(k2, v), k1),
{
    if entry_has_key(filter_entry(k2, v), k1) {
        let e = filter_entry(k2, v);
        assert(e.subrange(0, k1.len() as int + 3)[1] == (seq!['"'] + k1 + seq!['"', ':'])[1]);
        assert(e[1] == k1[0]);
        assert(e[1] == k2[0]);
    }
}

/// A filter with every criterion unset serializes to the empty JSON
/// object: two braces and nothing between them.
pub proof fn lemma_unset_filter_empty_object(f: InstrumentFilter)
    requires
        filter_is_unset(f),
    ensures
        filter_json(f) == seq!['{', '}'],
{
    assert(filter_entries(f) =~= Seq::<Seq<char>>::empty());
    assert(filter_json(f) =~= seq!['{', '}']);
}

/// The serialized filter holds an entry for a field's key exactly when
/// that field is set; the key of an unset field begins no entry at all.
/// The serialized text is the brace-wrapped comma join of those entries.
pub proof fn lemma_filter_keys_exact(f: InstrumentFilter)
    ensures
        filter_json(f) == seq!['{'] + join_comma(filter_entries(f)) + seq!['}'],
        some_entry_has_key(f, "baseCurrency"@) <==> f.base_currency is Some,
        some_entry_has_key(f, "quoteCurrency"@) <==> f.quote_currency is Some,
        some_entry_has_key(f, "type"@) <==> f.instrument_type is Some,
        some_entry_has_key(f, "contractType"@) <==> f.contract_type is Some,
        some_entry_has_key(f, "active"@) <==> f.active is Some,
{
    reveal_strlit("baseCurrency");
    reveal_strlit("quoteCurrency");
    reveal_strlit("type");
    reveal_strlit("contractType");
    reveal_strlit("active");
    let n0: int = if f.base_currency is Some {
        1
    } else {
        0
    };
    let n1: int = n0 + (if f.quote_currency is Some {
        1int
    } else {
        0
    });
    let n2: int = n1 + (if f.instrument_type is Some {
        1int
    } else {
        0
    });
    let n3: int = n2 + (if f.contract_type is Some {
        1int
    } else {
        0
    });
    let es = filter_entries(f);
    if f.base_currency is Some {
        let e = filter_entry("baseCurrency"@, json_string_array(strings_view(f.base_currency->0@)));
        assert(es[0] == e);
        lemma_entry_has_own_key("baseCurrency"@, json_string_array(strings_view(f.base_currency->0@)));
    }
    if f.quote_currency is Some {
        let e = filter_entry(
            "quoteCurrency"@,
            json_string_array(strings_view(f.quote_currency->0@)),
        );
        assert(es[n0] == e);
        lemma_entry_has_own_key(
            "quoteCurrency"@,
            json_string_array(strings_view(f.quote_currency->0@)),
        );
    }
    if f.instrument_type is Some {
        let e = filter_entry("type"@, json_string_array(strings_view(f.instrument_type->0@)));
        assert(es[n1] == e);
        lemma_entry_has_own_key("type"@, json_string_array(strings_view(f.instrument_type->0@)));
    }
    if f.contract_type is Some {
        let e = filter_entry("contractType"@, json_string_array(strings_view(f.contract_type->0@)));
        assert(es[n2] == e);
        lemma_entry_has_own_key(
            "contractType"@,
            json_string_array(strings_view(f.contract_type->0@)),
        );
    }
    if f.active is Some {
        let e = filter_entry("active"@, json_bool(f.active->0));
        assert(es[n3] == e);
        lemma_entry_has_own_key("active"@, json_bool(f.active->0));
    }
    if f.base_currency is None {
        lemma_unset_key_helper(f, "baseCurrency"@);
    }
    if f.quote_currency is None {
        lemma_unset_key_helper(f, "quoteCurrency"@);
    }
    if f.instrument_type is None {
        lemma_unset_key_helper(f, "type"@);
    }
    if f.contract_type is None {
        lemma_unset_key_helper(f, "contractType"@);
    }
    if f.active is None {
        lemma_unset_key_helper(f, "active"@);
    }
}

/// No entry of the serialized filter carries a key whose first character
/// differs from the first character of every field key that is set.
proof fn lemma_unset_key_helper(f: InstrumentFilter, key: Seq<char>)
    requires
        key.len() >= 1,
        f.base_currency is Some ==> key[0] != "baseCurrency"@[0],
        f.quote_currency is Some ==> key[0] != "quoteCurrency"@[0],
        f.instrument_type is Some ==> key[0] != "type"@[0],
        f.contract_type is Some ==> key[0] != "contractType"@[0],
        f.active is Some ==> key[0] != "active"@[0],
    ensures
        forall|i: int|
            0 <= i < filter_entries(f).len() ==> !entry_has_key(
                #[trigger] filter_entries(f)[i],
                key,
            ),
{
    reveal_strlit("baseCurrency");
    reveal_strlit("quoteCurrency");
    reveal_strlit("type");
    reveal_strlit("contractType");
    reveal_strlit("active");
    if f.base_currency is Some {
        lemma_entry_other_key(
            key,
            "baseCurrency"@,
            json_string_array(strings_view(f.base_currency->0@)),
        );
    }
    if f.quote_currency is Some {
        lemma_entry_other_key(
            key,
            "quoteCurrency"@,
            json_string_array(strings_view(f.quote_currency->0@)),
        );
    }
    if f.instrument_type is Some {
        lemma_entry_other_key(
            key,
            "type"@,
            json_string_array(strings_view(f.instrument_type->0@)),
        );
    }
    if f.contract_type is Some {
        lemma_entry_other_key(
            key,
            "contractType"@,
            json_string_array(strings_view(f.contract_type->0@)),
        );
    }
    if f.active is Some {
        lemma_entry_other_key(key, "active"@, json_bool(f.active->0));
    }
}

impl InstrumentFilter {
    /// A filter with every criterion unset.
    pub fn new() -> (r: Self)
        ensures
            filter_is_unset(r),
            r.base_currency is None,
            r.quote_currency is None,
            r.instrument_type is None,
            r.contract_type is None,
            r.active is None,
    {
        InstrumentFilter {
            base_currency: None,
            quote_currency: None,
            instrument_type: None,
            contract_type: None,
            active: None,
        }
    }

    /// The same filter with the base-currency criterion set.
    pub fn with_base_currency(self, v: Vec<String>) -> (r: Self)
        ensures
            r == (InstrumentFilter { base_currency: Some(v), ..self }),
    {
        InstrumentFilter { base_currency: Some(v), ..self }
    }

    /// The same filter with the quote-currency criterion set.
    pub fn with_quote_currency(self, v: Vec<String>) -> (r: Self)
        ensures
            r == (InstrumentFilter { quote_currency: Some(v), ..self }),
    {
        InstrumentFilter { quote_currency: Some(v), ..self }
    }

    /// The same filter with the instrument-type criterion set.
    pub fn with_instrument_type(self, v: Vec<String>) -> (r: Self)
        ensures
            r == (InstrumentFilter { instrument_type: Some(v), ..self }),
    {
        InstrumentFilter { instrument_type: Some(v), ..self }
    }

    /// The same filter with the contract-type criterion set.
    pub fn with_contract_type(self, v: Vec<String>) -> (r: Self)
        ensures
            r == (InstrumentFilter { contract_type: Some(v), ..self }),
    {
        InstrumentFilter { contract_type: Some(v), ..self }
    }

    /// The same filter with the active criterion set.
    pub fn with_active(self, v: bool) -> (r: Self)
        ensures
            r == (InstrumentFilter { active: Some(v), ..self }),
    {
        InstrumentFilter { active: Some(v), ..self }
    }

    /// True when no criterion is set.
    pub fn is_unset(&self) -> (r: bool)
        ensures
            r == filter_is_unset(*self),
    {
        self.base_currency.is_none() && self.quote_currency.is_none()
            && self.instrument_type.is_none() && self.contract_type.is_none()
            && self.active.is_none()
    }

    /// Serializes the filter as a JSON object holding exactly the set
    /// fields.
    pub fn to_json(&self) -> (r: String)
        ensures
            r@ == filter_json(*self),
    {
        let parts = entry_texts(self);
        join_object(parts)
    }
}

/// The texts of all entries of the filter, in field declaration order.
fn entry_texts(f: &InstrumentFilter) -> (v: Vec<String>)
    ensures
        strings_view(v@) == filter_entries(*f),
{
    let mut out: Vec<String> = Vec::new();
    if let Some(x) = &f.base_currency {
        out.push(list_entry_text("baseCurrency", x));
    }
    if let Some(x) = &f.quote_currency {
        out.push(list_entry_text("quoteCurrency", x));
    }
    if let Some(x) = &f.instrument_type {
        out.push(list_entry_text("type", x));
    }
    if let Some(x) = &f.contract_type {
        out.push(list_entry_text("contractType", x));
    }
    if let Some(b) = f.active {
        out.push(active_entry_text(b));
    }
    proof {
        assert(strings_view(out@) =~= filter_entries(*f));
    }
    out
}

/// The text of one list-field entry.
fn list_entry_text(key: &str, v: &Vec<String>) -> (r: String)
    ensures
        r@ == filter_entry(key@, json_string_array(strings_view(v@))),
{
    let mut out = String::new();
    push_char(&mut out, '"');
    out.append(key);
    push_char(&mut out, '"');
    push_char(&mut out, ':');
    append_string_array(&mut out, v);
    proof {
        assert(out@ =~= filter_entry(key@, json_string_array(strings_view(v@))));
    }
    out
}

/// The text of the active-flag entry.
fn active_entry_text(b: bool) -> (r: String)
    ensures
        r@ == filter_entry("active"@, json_bool(b)),
{
    let mut out = String::new();
    push_char(&mut out, '"');
    out.append("active");
    push_char(&mut out, '"');
    push_char(&mut out, ':');
    if b {
        out.append("true");
    } else {
        out.append("false");
    }
    proof {
        assert(out@ =~= filter_entry("active"@, json_bool(b)));
    }
    out
}

/// Joins the given entry texts with commas between braces.
fn join_object(parts: Vec<String>) -> (r: String)
    ensures
        r@ == seq!['{'] + join_comma(strings_view(parts@)) + seq!['}'],
{
    let mut out = String::new();
    push_char(&mut out, '{');
    let ghost elems: Seq<Seq<char>> = strings_view(parts@);
    proof {
        assert(out@ =~= seq!['{'] + join_comma(elems.subrange(0, 0)));
    }
    let mut i: usize = 0;
    while i < parts.len()
        invariant
            i <= parts@.len(),
            elems == strings_view(parts@),
            out@ == seq!['{'] + join_comma(elems.subrange(0, i as int)),
        decreases parts@.len() - i,
    {
        if i > 0 {
            push_char(&mut out, ',');
        }
        out.append(parts[i].as_str());
        proof {
            assert(elems.subrange(0, i + 1).drop_last() =~= elems.subrange(0, i as int));
            assert(elems.subrange(0, i + 1).last() == elems[i as int]);
            assert(out@ =~= seq!['{'] + join_comma(elems.subrange(0, i + 1)));
        }
        i = i + 1;
    }
    push_char(&mut out, '}');
    proof {
        assert(elems.subrange(0, parts@.len() as int) =~= elems);
        assert(out@ =~= seq!['{'] + join_comma(elems) + seq!['}']);
    }
    out
}

/// Appends the escaped, quoted form of `s`.
fn append_json_string(out: &mut String, s: &str)
    ensures
        final(out)@ == old(out)@ + json_string(s@),
{
    let ghost init: Seq<char> = out@;
    push_char(out, '"');
    let n = s.unicode_len();
    let mut i: usize = 0;
    while i < n
        invariant
            i <= n,
            n == s@.len(),
            out@ == init + seq!['"'] + json_escaped(s@.subrange(0, i as int)),
        decreases n - i,
    {
        let c = s.get_char(i);
        if c == '"' {
            push_char(out, '\\');
            push_char(out, '"');
        } else if c == '\\' {
            push_char(out, '\\');
            push_char(out, '\\');
        } else {
            push_char(out, c);
        }
        proof {
            assert(s@.subrange(0, i + 1).drop_last() =~= s@.subrange(0, i as int));
            assert(s@.subrange(0, i + 1).last() == s@[i as int]);
            assert(out@ =~= init + seq!['"'] + json_escaped(s@.subrange(0, i + 1)));
        }
        i = i + 1;
    }
    proof {
        assert(s@.subrange(0, n as int) =~= s@);
        assert(init + seq!['"'] + json_escaped(s@) + seq!['"'] =~= init + json_string(s@));
    }
    push_char(out, '"');
}

/// Appends a JSON array holding each string of `v`, escaped and quoted.
fn append_string_array(out: &mut String, v: &Vec<String>)
    ensures
        final(out)@ == old(out)@ + json_string_array(strings_view(v@)),
{
    let ghost init: Seq<char> = out@;
    let ghost elems: Seq<Seq<char>> = Seq::new(v@.len(), |i: int| json_string(v@[i]@));
    push_char(out, '[');
    let mut i: usize = 0;
    while i < v.len()
        invariant
            i <= v@.len(),
            elems == Seq::new(v@.len(), |j: int| json_string(v@[j]@)),
            out@ == init + seq!['['] + join_comma(elems.subrange(0, i as int)),
        decreases v@.len() - i,
    {
        if i > 0 {
            push_char(out, ',');
        }
        append_json_string(out, v[i].as_str());
        proof {
            assert(elems.subrange(0, i + 1).drop_last() =~= elems.subrange(0, i as int));
            assert(elems.subrange(0, i + 1).last() == elems[i as int]);
            assert(out@ =~= init + seq!['['] + join_comma(elems.subrange(0, i + 1)));
        }
        i = i + 1;
    }
    proof {
        assert(elems.subrange(0, v@.len() as int) =~= elems);
    }
    push_char(out, ']');
    proof {
        assert(Seq::new(strings_view(v@).len(), |i: int| json_string(strings_view(v@)[i]))
            =~~= elems);
        assert(out@ =~= init + json_string_array(strings_view(v@)));
    }
}

} // verus!
