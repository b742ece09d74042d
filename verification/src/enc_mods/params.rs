//! The request grammar: `key1=value1::key2=value2::...`.
//!
//! A request is cut into fields at each `::`, leftmost first, and a field
//! into key and value at its first `=`. A field without `=` says nothing.
//! Where a key occurs more than once, its last value counts. Keys other
//! than `sample`, `keyid`, `keypath` and `algorithm` are ignored, and a
//! value that cannot be read falls back to the default: a request is never
//! refused.

use vstd::prelude::*;
use vstd::string::*;
use crate::enc_mods::crypto::Algorithm;

verus! {

/// How key material for one encryption is to be obtained.
#[derive(Clone, Debug, PartialEq, Eq)]
pub struct InputParams {
    /// Use the sample key provider. When set, `keypath` is ignored.
    pub sample: bool,
    /// The key's identifier, which the annotation will carry.
    pub keyid: Option<String>,
    /// Where in the local file system the key is.
    pub keypath: Option<String>,
    /// The encryption algorithm.
    pub algorithm: Algorithm,
}

/// Mathematical value of [`InputParams`].
pub struct InputParamsView {
    pub sample: bool,
    pub keyid: Option<Seq<char>>,
    pub keypath: Option<Seq<char>>,
    pub algorithm: Algorithm,
}

/// Mathematical value of an optional string.
pub open spec fn text_view(text: Option<String>) -> Option<Seq<char>> {
    match text {
        Some(t) => Some(t@),
        None => None,
    }
}

impl View for InputParams {
    type V = InputParamsView;

    open spec fn view(&self) -> InputParamsView {
        InputParamsView {
            sample: self.sample,
            keyid: text_view(self.keyid),
            keypath: text_view(self.keypath),
            algorithm: self.algorithm,
        }
    }
}

/// Index of the leftmost `::` in `s` that starts at or after `from`, or the
/// length of `s` where there is none.
pub open spec fn next_separator(s: Seq<char>, from: int) -> int
    decreases s.len() - from,
{
    if from < 0 || from + 1 >= s.len() {
        s.len() as int
    } else if s[from] == ':' && s[from + 1] == ':' {
        from
    } else {
        next_separator(s, from + 1)
    }
}

/// The fields of `s` from index `from` on.
pub open spec fn fields_from(s: Seq<char>, from: int) -> Seq<Seq<char>>
    decreases s.len() - from,
{
    let end = next_separator(s, from);
    if from <= end && end + 2 <= s.len() {
        seq![s.subrange(from, end)] + fields_from(s, end + 2)
    } else {
        seq![s.subrange(from, s.len() as int)]
    }
}

/// The fields of a request: what stands between its separators.
pub open spec fn split_fields(s: Seq<char>) -> Seq<Seq<char>> {
    fields_from(s, 0)
}

/// Index of the first `=` in `field` at or after `from`, or the length of
/// `field` where there is none.
pub open spec fn first_equals(field: Seq<char>, from: int) -> int
    decreases field.len() - from,
{
    if from < 0 || from >= field.len() {
        field.len() as int
    } else if field[from] == '=' {
        from
    } else {
        first_equals(field, from + 1)
    }
}

/// Key and value of a field, cut at its first `=`.
pub open spec fn key_value(field: Seq<char>) -> Option<(Seq<char>, Seq<char>)> {
    let at = first_equals(field, 0);
    if at < field.len() {
        Some((field.subrange(0, at), field.subrange(at + 1, field.len() as int)))
    } else {
        None
    }
}

/// The value that `fields` give to `key`: that of the last field with this key.
pub open spec fn lookup(fields: Seq<Seq<char>>, key: Seq<char>) -> Option<Seq<char>>
    decreases fields.len(),
{
    if fields.len() == 0 {
        None
    } else {
        match key_value(fields.last()) {
            Some((k, v)) => if k == key {
                Some(v)
            } else {
                lookup(fields.drop_last(), key)
            },
            None => lookup(fields.drop_last(), key),
        }
    }
}

/// The algorithm that a request asks for: the one its value names, and the
/// default where the key is absent or the value names none.
pub open spec fn requested_algorithm(value: Option<Seq<char>>) -> Algorithm {
    match value {
        Some(name) => match Algorithm::named(name) {
            Some(algorithm) => algorithm,
            None => Algorithm::A256GCM,
        },
        None => Algorithm::A256GCM,
    }
}

/// What a request asks for.
///
/// `sample` is set only by the value `true`; any other value, like the
/// key's absence, leaves it off.
pub open spec fn parsed_params(input: Seq<char>) -> InputParamsView {
    let fields = split_fields(input);
    InputParamsView {
        sample: lookup(fields, "sample"@) == Some("true"@),
        keyid: lookup(fields, "keyid"@),
        keypath: lookup(fields, "keypath"@),
        algorithm: requested_algorithm(lookup(fields, "algorithm"@)),
    }
}

/// The characters of `text`, one by one.
fn to_chars(text: &str) -> (chars: Vec<char>)
    ensures
        chars@ == text@,
{
    let mut chars: Vec<char> = Vec::new();
    for c in it: text.chars()
        invariant
            it.seq() == text@,
            chars@ == it.seq().take(it.index()),
    {
        chars.push(c);
    }
    chars
}

/// Whether every range lies within a text of `len` characters.
spec fn ranges_within(ranges: Seq<(usize, usize)>, len: nat) -> bool {
    forall|k: int| 0 <= k < ranges.len() ==> (#[trigger] ranges[k]).0 <= ranges[k].1 <= len
}

/// The pieces of `s` that `ranges` delimit.
spec fn pieces(s: Seq<char>, ranges: Seq<(usize, usize)>) -> Seq<Seq<char>> {
    Seq::new(ranges.len(), |k: int| s.subrange(ranges[k].0 as int, ranges[k].1 as int))
}

/// The piece of `s` that an optional range delimits.
spec fn piece(s: Seq<char>, range: Option<(usize, usize)>) -> Option<Seq<char>> {
    match range {
        Some((from, to)) => Some(s.subrange(from as int, to as int)),
        None => None,
    }
}

/// Cuts `chars` into fields, each given by where it starts and ends.
fn split_ranges(chars: &Vec<char>) -> (ranges: Vec<(usize, usize)>)
    ensures
        ranges_within(ranges@, chars@.len()),
        pieces(chars@, ranges@) == split_fields(chars@),
{
    let n = chars.len();
    let ghost s = chars@;
    let mut ranges: Vec<(usize, usize)> = Vec::new();
    let mut start: usize = 0;
    let mut i: usize = 0;
    while i < n && i + 1 < n
        invariant
            n == chars@.len(),
            s == chars@,
            start <= i <= n,
            next_separator(s, start as int) == next_separator(s, i as int),
            ranges_within(ranges@, n as nat),
            split_fields(s) == pieces(s, ranges@) + fields_from(s, start as int),
        decreases n - i,
    {
        if chars[i] == ':' && chars[i + 1] == ':' {
            let ghost before = pieces(s, ranges@);
            ranges.push((start, i));
            assert(pieces(s, ranges@) == before.push(s.subrange(start as int, i as int)));
            assert(before + (seq![s.subrange(start as int, i as int)] + fields_from(s, i + 2))
                == before.push(s.subrange(start as int, i as int)) + fields_from(s, i + 2));
            start = i + 2;
            i = i + 2;
        } else {
            i = i + 1;
        }
    }
    let ghost before = pieces(s, ranges@);
    ranges.push((start, n));
    assert(pieces(s, ranges@) == before.push(s.subrange(start as int, n as int)));
    assert(before + seq![s.subrange(start as int, n as int)] == before.push(
        s.subrange(start as int, n as int),
    ));
    ranges
}

/// Where the first `=` of the field `chars[from..to]` is, or `to` where it has none.
fn find_equals(chars: &Vec<char>, from: usize, to: usize) -> (at: usize)
    requires
        from <= to <= chars@.len(),
    ensures
        from <= at <= to,
        at - from == first_equals(chars@.subrange(from as int, to as int), 0),
{
    let ghost field = chars@.subrange(from as int, to as int);
    let mut at = from;
    while at < to
        invariant
            from <= at <= to <= chars@.len(),
            field == chars@.subrange(from as int, to as int),
            first_equals(field, 0) == first_equals(field, at - from),
        decreases to - at,
    {
        assert(field[at - from] == chars@[at as int]);
        if chars[at] == '=' {
            return at;
        }
        at = at + 1;
    }
    at
}

/// Whether `chars[from..to]` spells `word`.
fn spells(chars: &Vec<char>, from: usize, to: usize, word: &Vec<char>) -> (same: bool)
    requires
        from <= to <= chars@.len(),
    ensures
        same == (chars@.subrange(from as int, to as int) == word@),
{
    let ghost piece = chars@.subrange(from as int, to as int);
    if to - from != word.len() {
        return false;
    }
    let mut i: usize = 0;
    while i < word.len()
        invariant
            from <= to <= chars@.len(),
            to - from == word@.len(),
            i <= word@.len(),
            piece == chars@.subrange(from as int, to as int),
            forall|k: int| 0 <= k < i ==> piece[k] == word@[k],
        decreases word@.len() - i,
    {
        assert(piece[i as int] == chars@[from + i]);
        if chars[from + i] != word[i] {
            return false;
        }
        i = i + 1;
    }
    assert(piece =~= word@);
    true
}

/// Where in `chars` the value stands that the fields give to `key`.
fn lookup_range(chars: &Vec<char>, fields: &Vec<(usize, usize)>, key: &str) -> (value: Option<
    (usize, usize),
>)
    requires
        ranges_within(fields@, chars@.len()),
    ensures
        value matches Some((from, to)) ==> from <= to <= chars@.len(),
        piece(chars@, value) == lookup(pieces(chars@, fields@), key@),
{
    let word = to_chars(key);
    let ghost all = pieces(chars@, fields@);
    let mut value: Option<(usize, usize)> = None;
    let mut j: usize = 0;
    while j < fields.len()
        invariant
            j <= fields@.len(),
            word@ == key@,
            ranges_within(fields@, chars@.len()),
            all == pieces(chars@, fields@),
            value matches Some((from, to)) ==> from <= to <= chars@.len(),
            piece(chars@, value) == lookup(all.take(j as int), key@),
        decreases fields@.len() - j,
    {
        let (from, to) = fields[j];
        let ghost field = chars@.subrange(from as int, to as int);
        assert(all.take(j + 1).last() == field);
        assert(all.take(j + 1).drop_last() == all.take(j as int));
        let at = find_equals(chars, from, to);
        if at < to {
            assert(field.subrange(0, at - from) == chars@.subrange(from as int, at as int));
            assert(field.subrange(at - from + 1, field.len() as int) == chars@.subrange(
                at + 1,
                to as int,
            ));
            if spells(chars, from, at, &word) {
                value = Some((at + 1, to));
            }
        }
        j = j + 1;
    }
    assert(all.take(j as int) == all);
    value
}

/// The text of `input` that an optional range delimits.
fn owned_piece(input: &str, range: Option<(usize, usize)>) -> (text: Option<String>)
    requires
        range matches Some((from, to)) ==> from <= to <= input@.len(),
    ensures
        text_view(text) == piece(input@, range),
{
    match range {
        Some((from, to)) => Some(input.substring_char(from, to).to_owned()),
        None => None,
    }
}

/// Reads a request. Every string is a request: what cannot be read in it
/// is ignored or falls back to its default.
pub fn parse_input_params(input: &str) -> (params: InputParams)
    ensures
        params@ == parsed_params(input@),
{
    let chars = to_chars(input);
    let fields = split_ranges(&chars);
    let sample = match lookup_range(&chars, &fields, "sample") {
        Some((from, to)) => {
            let yes = to_chars("true");
            spells(&chars, from, to, &yes)
        },
        None => false,
    };
    let keyid = owned_piece(input, lookup_range(&chars, &fields, "keyid"));
    let keypath = owned_piece(input, lookup_range(&chars, &fields, "keypath"));
    let algorithm = match lookup_range(&chars, &fields, "algorithm") {
        Some((from, to)) => {
            let gcm = to_chars("A256GCM");
            let ctr = to_chars("A256CTR");
            if spells(&chars, from, to, &gcm) {
                Algorithm::A256GCM
            } else if spells(&chars, from, to, &ctr) {
                Algorithm::A256CTR
            } else {
                Algorithm::A256GCM
            }
        },
        None => Algorithm::A256GCM,
    };
    InputParams { sample, keyid, keypath, algorithm }
}

/// Whether `field` gives a value to `key`.
pub open spec fn has_key(field: Seq<char>, key: Seq<char>) -> bool {
    key_value(field) matches Some((k, _)) && k == key
}

/// Whether a separator starts at index `i` of `s`.
pub open spec fn separator_at(s: Seq<char>, i: int) -> bool {
    0 <= i && i + 1 < s.len() && s[i] == ':' && s[i + 1] == ':'
}

/// The fields joined again, with a separator between each two.
pub open spec fn join_fields(fields: Seq<Seq<char>>) -> Seq<char>
    decreases fields.len(),
{
    if fields.len() == 0 {
        Seq::empty()
    } else if fields.len() == 1 {
        fields[0]
    } else {
        fields[0] + seq![':', ':'] + join_fields(fields.drop_first())
    }
}

/// The next separator is the leftmost one at or after `from`: it is not
/// before `from`, no separator starts between `from` and it, and where it
/// lies within `s` a separator starts there.
pub proof fn lemma_next_separator(s: Seq<char>, from: int)
    requires
        0 <= from <= s.len(),
    ensures
        from <= next_separator(s, from) <= s.len(),
        next_separator(s, from) < s.len() ==> separator_at(s, next_separator(s, from)),
        forall|i: int| from <= i < next_separator(s, from) ==> !separator_at(s, i),
    decreases s.len() - from,
{
    if from + 1 < s.len() && !(s[from] == ':' && s[from + 1] == ':') {
        lemma_next_separator(s, from + 1);
    }
}

/// Cutting loses nothing: the fields of a request, joined again with
/// separators, are the request. A request has at least one field.
pub proof fn lemma_fields_rejoin(s: Seq<char>)
    ensures
        split_fields(s).len() >= 1,
        join_fields(split_fields(s)) == s,
{
    lemma_fields_rejoin_from(s, 0);
    assert(s.subrange(0, s.len() as int) == s);
}

proof fn lemma_fields_rejoin_from(s: Seq<char>, from: int)
    requires
        0 <= from <= s.len(),
    ensures
        fields_from(s, from).len() >= 1,
        join_fields(fields_from(s, from)) == s.subrange(from, s.len() as int),
    decreases s.len() - from,
{
    lemma_next_separator(s, from);
    let end = next_separator(s, from);
    if end + 2 <= s.len() {
        lemma_fields_rejoin_from(s, end + 2);
        let first = s.subrange(from, end);
        let rest = fields_from(s, end + 2);
        let all = seq![first] + rest;
        assert(all.drop_first() == rest);
        assert(all[0] == first);
        assert(first + seq![':', ':'] + s.subrange(end + 2, s.len() as int) == s.subrange(
            from,
            s.len() as int,
        ));
    }
}

/// No field holds a separator.
pub proof fn lemma_fields_hold_no_separator(s: Seq<char>, k: int, i: int)
    requires
        0 <= k < split_fields(s).len(),
    ensures
        !separator_at(split_fields(s)[k], i),
{
    lemma_fields_from_hold_no_separator(s, 0, k, i);
}

proof fn lemma_fields_from_hold_no_separator(s: Seq<char>, from: int, k: int, i: int)
    requires
        0 <= from <= s.len(),
        0 <= k < fields_from(s, from).len(),
    ensures
        !separator_at(fields_from(s, from)[k], i),
    decreases s.len() - from,
{
    lemma_next_separator(s, from);
    let end = next_separator(s, from);
    if end + 2 <= s.len() {
        let first = s.subrange(from, end);
        let rest = fields_from(s, end + 2);
        if k == 0 {
            if separator_at(first, i) {
                assert(separator_at(s, from + i));
            }
        } else {
            assert((seq![first] + rest)[k] == rest[k - 1]);
            lemma_fields_from_hold_no_separator(s, end + 2, k - 1, i);
        }
    } else {
        let last = s.subrange(from, s.len() as int);
        if separator_at(last, i) {
            assert(separator_at(s, from + i));
        }
    }
}

/// The first `=` is the leftmost one at or after `from`.
pub proof fn lemma_first_equals(field: Seq<char>, from: int)
    requires
        0 <= from <= field.len(),
    ensures
        from <= first_equals(field, from) <= field.len(),
        first_equals(field, from) < field.len() ==> field[first_equals(field, from)] == '=',
        forall|i: int| from <= i < first_equals(field, from) ==> field[i] != '=',
    decreases field.len() - from,
{
    if from < field.len() && field[from] != '=' {
        lemma_first_equals(field, from + 1);
    }
}

/// A field is cut at its first `=` and nowhere else: it has a key and a
/// value exactly when it holds an `=`, the key holds none, and key, `=` and
/// value together are the field.
pub proof fn lemma_key_value(field: Seq<char>)
    ensures
        key_value(field) is Some <==> field.contains('='),
        key_value(field) matches Some((key, value)) ==> !key.contains('=') && key + seq!['=']
            + value == field,
{
    lemma_first_equals(field, 0);
    let at = first_equals(field, 0);
    if at < field.len() {
        assert(field.contains('='));
        let key = field.subrange(0, at);
        let value = field.subrange(at + 1, field.len() as int);
        assert(key + seq!['='] + value == field);
        if key.contains('=') {
            let i = choose|i: int| 0 <= i < key.len() && key[i] == '=';
            assert(field[i] == '=');
        }
    } else {
        if field.contains('=') {
            let i = choose|i: int| 0 <= i < field.len() && field[i] == '=';
            assert(field[i] == '=');
        }
    }
}

/// Where a key occurs more than once, its last value counts: the value of
/// a field with the key, after which no field has the key, is the value
/// that the fields give to the key.
pub proof fn lemma_last_occurrence_wins(fields: Seq<Seq<char>>, key: Seq<char>, i: int)
    requires
        0 <= i < fields.len(),
        has_key(fields[i], key),
        forall|j: int| i < j < fields.len() ==> !has_key(#[trigger] fields[j], key),
    ensures
        key_value(fields[i]) matches Some((_, value)) && lookup(fields, key) == Some(value),
    decreases fields.len(),
{
    if i < fields.len() - 1 {
        assert(!has_key(fields[fields.len() - 1], key));
        lemma_last_occurrence_wins(fields.drop_last(), key, i);
    }
}

/// A key that no field has is given no value, and only such a key.
pub proof fn lemma_absent_key(fields: Seq<Seq<char>>, key: Seq<char>)
    ensures
        lookup(fields, key) is None <==> forall|j: int|
            0 <= j < fields.len() ==> !has_key(#[trigger] fields[j], key),
    decreases fields.len(),
{
    if fields.len() > 0 {
        lemma_absent_key(fields.drop_last(), key);
        if has_key(fields.last(), key) {
            assert(has_key(fields[fields.len() - 1], key));
        } else if lookup(fields, key) is None {
            assert forall|j: int| 0 <= j < fields.len() implies !has_key(
                #[trigger] fields[j],
                key,
            ) by {
                if j < fields.len() - 1 {
                    assert(fields.drop_last()[j] == fields[j]);
                }
            }
        } else {
            let j = choose|j: int|
                0 <= j < fields.len() - 1 && has_key(#[trigger] fields.drop_last()[j], key);
            assert(has_key(fields[j], key));
        }
    }
}

} // verus!
