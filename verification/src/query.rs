//! How a query body reads back, and what holds of every query.

use crate::search::{
    field_text, high_or_default, join_fields, low_or_default, query_keys, text_or_empty, Arch,
    Field, Language, Platform, SearchParams,
};
use crate::text::{decimal_of, decimal_of_nat, position_of};
use vstd::prelude::*;

verus! {

/// Whether a text holds no occurrence of a character.
pub open spec fn free_of(s: Seq<char>, c: char) -> bool {
    forall|i: int| 0 <= i < s.len() ==> s[i] != c
}

/// The pieces of a text that stand between the occurrences of a separator.
/// A text without the separator is one piece.
pub open spec fn split_on(s: Seq<char>, sep: char) -> Seq<Seq<char>>
    decreases s.len(),
{
    if s.len() == 0 {
        seq![Seq::empty()]
    } else if s.last() == sep {
        split_on(s.drop_last(), sep).push(Seq::empty())
    } else {
        let pieces = split_on(s.drop_last(), sep);
        pieces.drop_last().push(pieces.last().push(s.last()))
    }
}

/// The field that a piece of a query writes: what stands before its first
/// `=` is the key, what stands behind it the value.
pub open spec fn field_of_text(piece: Seq<char>) -> Field {
    let eq = position_of(piece, '=', 0, piece.len() as int);
    (piece.take(eq), piece.skip(eq + 1))
}

/// The fields that a query body writes, in order.
pub open spec fn fields_of_query(body: Seq<char>) -> Seq<Field> {
    split_on(body, '&').map_values(|piece: Seq<char>| field_of_text(piece))
}

proof fn lemma_split_behind_separator(a: Seq<char>, b: Seq<char>, sep: char)
    requires
        free_of(b, sep),
    ensures
        split_on(a + seq![sep] + b, sep) == split_on(a, sep).push(b),
    decreases b.len(),
{
    let whole = a + seq![sep] + b;
    if b.len() == 0 {
        assert(whole.drop_last() =~= a);
        assert(b =~= Seq::empty());
    } else {
        lemma_split_behind_separator(a, b.drop_last(), sep);
        assert(whole.drop_last() =~= a + seq![sep] + b.drop_last());
        assert(whole.last() == b.last());
        let pieces = split_on(a, sep).push(b.drop_last());
        assert(pieces.drop_last() =~= split_on(a, sep));
        assert(b.drop_last().push(b.last()) =~= b);
    }
}

proof fn lemma_split_without_separator(s: Seq<char>, sep: char)
    requires
        free_of(s, sep),
    ensures
        split_on(s, sep) == seq![s],
    decreases s.len(),
{
    if s.len() > 0 {
        lemma_split_without_separator(s.drop_last(), sep);
        assert(s.drop_last().push(s.last()) =~= s);
        assert(seq![s.drop_last()].drop_last().push(s) =~= seq![s]);
    } else {
        assert(s =~= Seq::empty());
    }
}

proof fn lemma_joined_fields_split(fields: Seq<Field>)
    requires
        fields.len() > 0,
        forall|i: int| 0 <= i < fields.len() ==> free_of(field_text(#[trigger] fields[i]), '&'),
    ensures
        split_on(join_fields(fields), '&') == fields.map_values(|f: Field| field_text(f)),
    decreases fields.len(),
{
    let written = fields.map_values(|f: Field| field_text(f));
    if fields.len() == 1 {
        lemma_split_without_separator(field_text(fields[0]), '&');
        assert(written =~= seq![field_text(fields[0])]);
    } else {
        let before = fields.drop_last();
        lemma_joined_fields_split(before);
        lemma_split_behind_separator(join_fields(before), field_text(fields.last()), '&');
        assert(written =~= before.map_values(|f: Field| field_text(f)).push(
            field_text(fields.last()),
        ));
    }
}

proof fn lemma_position_of_first(s: Seq<char>, c: char, from: int, at: int)
    requires
        0 <= from <= at < s.len(),
        s[at] == c,
        forall|i: int| from <= i < at ==> s[i] != c,
    ensures
        position_of(s, c, from, s.len() as int) == at,
    decreases at - from,
{
    if from < at {
        lemma_position_of_first(s, c, from + 1, at);
    }
}

proof fn lemma_field_reads_back(f: Field)
    requires
        free_of(f.0, '='),
    ensures
        field_of_text(field_text(f)) == f,
{
    let piece = field_text(f);
    lemma_position_of_first(piece, '=', 0, f.0.len() as int);
    assert(piece.take(f.0.len() as int) =~= f.0);
    assert(piece.skip(f.0.len() as int + 1) =~= f.1);
}

proof fn lemma_digits_have_no_separator(n: nat)
    ensures
        free_of(decimal_of_nat(n), '&'),
    decreases n,
{
    if n >= 10 {
        lemma_digits_have_no_separator(n / 10);
    }
}

proof fn lemma_decimal_has_no_separator(n: int)
    ensures
        free_of(decimal_of(n), '&'),
{
    if n < 0 {
        lemma_digits_have_no_separator((-n) as nat);
    } else {
        lemma_digits_have_no_separator(n as nat);
    }
}

proof fn lemma_language_wire_has_no_separator(v: Language)
    ensures
        free_of(v.wire(), '&'),
{
    reveal_strlit("C/C++");
    reveal_strlit("Assembler");
    reveal_strlit("Java");
    reveal_strlit("Go");
    reveal_strlit("Rust");
    reveal_strlit("WebAssembly");
    reveal_strlit("(Visual) Basic");
    reveal_strlit("Borland Delphi");
    reveal_strlit("Turbo Pascal");
    reveal_strlit(".NET");
    reveal_strlit("Unspecified/other");
}

proof fn lemma_arch_wire_has_no_separator(v: Arch)
    ensures
        free_of(v.wire(), '&'),
{
    reveal_strlit("x86");
    reveal_strlit("x86-64");
    reveal_strlit("java");
    reveal_strlit("ARM");
    reveal_strlit("MIPS");
    reveal_strlit("RISC-V");
    reveal_strlit("other");
}

proof fn lemma_platform_wire_has_no_separator(v: Platform)
    ensures
        free_of(v.wire(), '&'),
{
    reveal_strlit("DOS");
    reveal_strlit("Mac OS X");
    reveal_strlit("Multiplatform");
    reveal_strlit("Unix/linux etc.");
    reveal_strlit("Windows");
    reveal_strlit("Windows 2000/XP only");
    reveal_strlit("Windows 7 Only");
    reveal_strlit("Android");
    reveal_strlit("iOS");
    reveal_strlit("Unspecified/other");
}

proof fn lemma_keys_are_plain(i: int)
    requires
        0 <= i < 10,
    ensures
        free_of(query_keys()[i], '&'),
        free_of(query_keys()[i], '='),
{
    reveal_strlit("name");
    reveal_strlit("author");
    reveal_strlit("difficulty-min");
    reveal_strlit("difficulty-max");
    reveal_strlit("quality-min");
    reveal_strlit("quality-max");
    reveal_strlit("token");
    reveal_strlit("language");
    reveal_strlit("arch");
    reveal_strlit("platform");
}

/// A query holds ten fields, whatever the filter: the keys of
/// `query_keys`, each once and in that order, and for an absent band the
/// bounds of the catalog-wide band, 1 and 6.
pub proof fn lemma_query_has_ten_keys(params: SearchParams)
    ensures
        params.query_fields().len() == 10,
        params.encoded() == join_fields(params.query_fields()),
        forall|i: int| 0 <= i < 10 ==> (#[trigger] params.query_fields()[i]).0 == query_keys()[i],
        forall|i: int, j: int| 0 <= i < j < 10 ==> query_keys()[i] != query_keys()[j],
        params.difficulty_range is None ==> params.query_fields()[2].1 == seq!['1']
            && params.query_fields()[3].1 == seq!['6'],
        params.quality_range is None ==> params.query_fields()[4].1 == seq!['1']
            && params.query_fields()[5].1 == seq!['6'],
{
    reveal_strlit("name");
    reveal_strlit("author");
    reveal_strlit("difficulty-min");
    reveal_strlit("difficulty-max");
    reveal_strlit("quality-min");
    reveal_strlit("quality-max");
    reveal_strlit("token");
    reveal_strlit("language");
    reveal_strlit("arch");
    reveal_strlit("platform");
    assert("name"@.len() == 4);
    assert("name"@[0] == 'n');
    assert("author"@.len() == 6);
    assert("difficulty-min"@.len() == 14);
    assert("difficulty-min"@[12] == 'i');
    assert("difficulty-max"@.len() == 14);
    assert("difficulty-max"@[12] == 'a');
    assert("quality-min"@.len() == 11);
    assert("quality-min"@[9] == 'i');
    assert("quality-max"@.len() == 11);
    assert("quality-max"@[9] == 'a');
    assert("token"@.len() == 5);
    assert("language"@.len() == 8);
    assert("language"@[0] == 'l');
    assert("arch"@.len() == 4);
    assert("arch"@[0] == 'a');
    assert("platform"@.len() == 8);
    assert("platform"@[0] == 'p');
    assert(query_keys()[0] != query_keys()[1]);
    assert(query_keys()[0] != query_keys()[2]);
    assert(query_keys()[0] != query_keys()[3]);
    assert(query_keys()[0] != query_keys()[4]);
    assert(query_keys()[0] != query_keys()[5]);
    assert(query_keys()[0] != query_keys()[6]);
    assert(query_keys()[0] != query_keys()[7]);
    assert(query_keys()[0] != query_keys()[8]);
    assert(query_keys()[0] != query_keys()[9]);
    assert(query_keys()[1] != query_keys()[2]);
    assert(query_keys()[1] != query_keys()[3]);
    assert(query_keys()[1] != query_keys()[4]);
    assert(query_keys()[1] != query_keys()[5]);
    assert(query_keys()[1] != query_keys()[6]);
    assert(query_keys()[1] != query_keys()[7]);
    assert(query_keys()[1] != query_keys()[8]);
    assert(query_keys()[1] != query_keys()[9]);
    assert(query_keys()[2] != query_keys()[3]);
    assert(query_keys()[2] != query_keys()[4]);
    assert(query_keys()[2] != query_keys()[5]);
    assert(query_keys()[2] != query_keys()[6]);
    assert(query_keys()[2] != query_keys()[7]);
    assert(query_keys()[2] != query_keys()[8]);
    assert(query_keys()[2] != query_keys()[9]);
    assert(query_keys()[3] != query_keys()[4]);
    assert(query_keys()[3] != query_keys()[5]);
    assert(query_keys()[3] != query_keys()[6]);
    assert(query_keys()[3] != query_keys()[7]);
    assert(query_keys()[3] != query_keys()[8]);
    assert(query_keys()[3] != query_keys()[9]);
    assert(query_keys()[4] != query_keys()[5]);
    assert(query_keys()[4] != query_keys()[6]);
    assert(query_keys()[4] != query_keys()[7]);
    assert(query_keys()[4] != query_keys()[8]);
    assert(query_keys()[4] != query_keys()[9]);
    assert(query_keys()[5] != query_keys()[6]);
    assert(query_keys()[5] != query_keys()[7]);
    assert(query_keys()[5] != query_keys()[8]);
    assert(query_keys()[5] != query_keys()[9]);
    assert(query_keys()[6] != query_keys()[7]);
    assert(query_keys()[6] != query_keys()[8]);
    assert(query_keys()[6] != query_keys()[9]);
    assert(query_keys()[7] != query_keys()[8]);
    assert(query_keys()[7] != query_keys()[9]);
    assert(query_keys()[8] != query_keys()[9]);
    assert(decimal_of(1) =~= seq!['1']);
    assert(decimal_of(6) =~= seq!['6']);
}

/// A query body reads back as the fields that were written into it:
/// cutting it at every `&`, and each piece at its first `=`, gives the ten
/// keys in their order, each with its value. This holds of every filter
/// whose free texts (name, author and token) hold no `&`.
pub proof fn lemma_query_reads_back(params: SearchParams)
    requires
        free_of(text_or_empty(params.name), '&'),
        free_of(text_or_empty(params.author), '&'),
        free_of(params.token@, '&'),
    ensures
        fields_of_query(params.encoded()) == params.query_fields(),
        fields_of_query(params.encoded()).len() == 10,
        forall|i: int|
            0 <= i < 10 ==> (#[trigger] fields_of_query(params.encoded())[i]).0 == query_keys()[i],
{
    let fields = params.query_fields();
    let values = params.query_values();
    lemma_decimal_has_no_separator(low_or_default(params.difficulty_range));
    lemma_decimal_has_no_separator(high_or_default(params.difficulty_range));
    lemma_decimal_has_no_separator(low_or_default(params.quality_range));
    lemma_decimal_has_no_separator(high_or_default(params.quality_range));
    if params.language is Some {
        lemma_language_wire_has_no_separator(params.language->0);
    }
    if params.arch is Some {
        lemma_arch_wire_has_no_separator(params.arch->0);
    }
    if params.platform is Some {
        lemma_platform_wire_has_no_separator(params.platform->0);
    }
    assert forall|i: int| 0 <= i < 10 implies free_of(#[trigger] values[i], '&') by {}
    assert forall|i: int| 0 <= i < fields.len() implies free_of(
        field_text(#[trigger] fields[i]),
        '&',
    ) by {
        lemma_keys_are_plain(i);
        assert(free_of(values[i], '&'));
    }
    lemma_joined_fields_split(fields);
    let written = fields.map_values(|f: Field| field_text(f));
    assert forall|i: int| 0 <= i < 10 implies field_of_text(#[trigger] written[i]) == fields[i] by {
        lemma_keys_are_plain(i);
        lemma_field_reads_back(fields[i]);
    }
    assert(fields_of_query(params.encoded()) =~= fields);
}

} // verus!
