//! Properties of generation that hold of every definition.

use vstd::prelude::*;
use crate::definition::StructureDefinition;
use crate::error::GenerationError;
use crate::generate::GeneratedRoutine;
use crate::render::FieldValue;
use crate::shape::TypeShape;
use crate::text::join;

verus! {

/// The fragments `name: value` of scalar fields with the given values, in
/// declaration order.
pub open spec fn scalar_fragments(
    definition: StructureDefinition,
    values: Seq<FieldValue>,
) -> Seq<Seq<char>> {
    Seq::new(
        values.len(),
        |i: int| definition.named_fields().unwrap()[i].name@ + ": "@ + values[i]->Scalar_0@,
    )
}

/// For a product type whose named fields are all scalars, generation
/// succeeds, and the routine generated for it turns an instance into the
/// type's name, ` { `, one `field: value` for each field in declaration
/// order with `, ` between neighbours, and ` }`.
pub proof fn scalar_record_representation(
    definition: StructureDefinition,
    routine: GeneratedRoutine,
    values: Seq<FieldValue>,
)
    requires
        definition.named_fields().is_ok(),
        forall|i: int|
            0 <= i < definition.named_fields().unwrap().len() ==> (
            #[trigger] definition.named_fields().unwrap()[i]).declared.shape() == Ok::<
                _,
                GenerationError,
            >(TypeShape::Scalar),
        routine.generated_from(&definition),
        values.len() == definition.named_fields().unwrap().len(),
        forall|i: int| 0 <= i < values.len() ==> (#[trigger] values[i]) is Scalar,
    ensures
        definition.failure().is_none(),
        routine.output(values) == Some(
            definition.name@ + " { "@ + join(scalar_fragments(definition, values), ", "@) + " }"@,
        ),
{
    let fields = definition.named_fields().unwrap();
    assert forall|i: int| 0 <= i < values.len() implies (#[trigger] values[i]).fits(
        routine.fragments@[i].shape,
    ) by {
        assert(fields[i].declared.shape() == Ok::<_, GenerationError>(TypeShape::Scalar));
        assert(values[i] is Scalar);
    }
    assert(routine.accepts(values));
    assert(routine.fragment_texts(values) =~= scalar_fragments(definition, values));
}

/// Generation is a function of the definition: two runs on one definition
/// end alike, and hand back the same text, character for character.
pub proof fn generation_is_idempotent(
    definition: StructureDefinition,
    first: Result<String, String>,
    second: Result<String, String>,
)
    requires
        definition.derives(first),
        definition.derives(second),
    ensures
        match (first, second) {
            (Ok(a), Ok(b)) => a@ == b@,
            (Err(a), Err(b)) => a@ == b@,
            _ => false,
        },
{
}

/// The routine of a structure without fields yields the structure's name
/// and a pair of braces with two spaces between them.
pub proof fn empty_record_representation(routine: GeneratedRoutine)
    requires
        routine.fragments@.len() == 0,
    ensures
        routine.output(Seq::empty()) == Some(routine.struct_name@ + " {  }"@),
{
    reveal_strlit(" { ");
    reveal_strlit(" }");
    reveal_strlit(" {  }");
    let values = Seq::<FieldValue>::empty();
    assert(routine.accepts(values));
    assert(routine.fragment_texts(values) =~= Seq::<Seq<char>>::empty());
    assert(routine.struct_name@ + " { "@ + Seq::<char>::empty() + " }"@ =~= routine.struct_name@
        + " {  }"@);
}

/// Whether a comma followed by a space begins at position `i` of `text`.
pub open spec fn separator_at(text: Seq<char>, i: int) -> bool {
    0 <= i && i + 1 < text.len() && text[i] == ',' && text[i + 1] == ' '
}

/// At how many positions below `n` a comma followed by a space begins.
pub open spec fn separators_below(text: Seq<char>, n: nat) -> nat
    decreases n,
{
    if n == 0 {
        0
    } else {
        separators_below(text, (n - 1) as nat) + if separator_at(text, n - 1) {
            1nat
        } else {
            0nat
        }
    }
}

/// How often a comma followed by a space occurs in `text`.
pub open spec fn separator_count(text: Seq<char>) -> nat {
    separators_below(text, text.len())
}

/// Whether no comma followed by a space occurs in `text`.
pub open spec fn holds_no_separator(text: Seq<char>) -> bool {
    forall|i: int| !#[trigger] separator_at(text, i)
}

/// Whether the last character of `text` is a comma.
pub open spec fn ends_with_comma(text: Seq<char>) -> bool {
    text.len() > 0 && text.last() == ','
}

/// Whether `a` ends with a comma and `b` begins with a space, so that a
/// separator arises where the two meet.
pub open spec fn straddles(a: Seq<char>, b: Seq<char>) -> bool {
    ends_with_comma(a) && b.len() > 0 && b[0] == ' '
}

proof fn lemma_same_positions(a: Seq<char>, b: Seq<char>, n: nat)
    requires
        forall|i: int| 0 <= i < n ==> #[trigger] separator_at(a, i) == separator_at(b, i),
    ensures
        separators_below(a, n) == separators_below(b, n),
    decreases n,
{
    if n > 0 {
        lemma_same_positions(a, b, (n - 1) as nat);
    }
}

proof fn lemma_none_below(text: Seq<char>, n: nat)
    requires
        holds_no_separator(text),
    ensures
        separators_below(text, n) == 0,
    decreases n,
{
    if n > 0 {
        lemma_none_below(text, (n - 1) as nat);
    }
}

proof fn lemma_tail_positions(a: Seq<char>, b: Seq<char>, j: nat)
    requires
        j <= b.len(),
    ensures
        separators_below(a + b, a.len() + j) == separators_below(a + b, a.len())
            + separators_below(b, j),
    decreases j,
{
    if j > 0 {
        lemma_tail_positions(a, b, (j - 1) as nat);
        let t = a + b;
        let p = a.len() + j - 1;
        assert(t[p] == b[j - 1]);
        if j < b.len() {
            assert(t[p + 1] == b[j as int]);
        }
        assert(separator_at(t, p) == separator_at(b, j - 1));
    }
}

/// The occurrences in `a + b` are those in `a`, those in `b`, and one more
/// where a comma at the end of `a` meets a space at the start of `b`.
pub proof fn lemma_count_of_concat(a: Seq<char>, b: Seq<char>)
    ensures
        separator_count(a + b) == separator_count(a) + separator_count(b) + if straddles(a, b) {
            1nat
        } else {
            0nat
        },
{
    let t = a + b;
    lemma_tail_positions(a, b, b.len());
    if a.len() > 0 {
        let m = (a.len() - 1) as nat;
        assert forall|i: int| 0 <= i < m implies #[trigger] separator_at(t, i) == separator_at(
            a,
            i,
        ) by {
            assert(t[i] == a[i]);
            assert(t[i + 1] == a[i + 1]);
        }
        lemma_same_positions(t, a, m);
        assert(!separator_at(a, m as int));
        assert(t[m as int] == a[m as int]);
        if b.len() > 0 {
            assert(t[m as int + 1] == b[0]);
        }
        assert(separator_at(t, m as int) == straddles(a, b));
    }
}

/// Joining `k >= 1` parts that hold no separator gives a text in which the
/// separator occurs `k - 1` times; and the text ends with a comma only if
/// its last part does.
pub proof fn lemma_join_count(parts: Seq<Seq<char>>)
    requires
        parts.len() >= 1,
        forall|i: int| 0 <= i < parts.len() ==> holds_no_separator(#[trigger] parts[i]),
    ensures
        separator_count(join(parts, ", "@)) == parts.len() - 1,
        ends_with_comma(join(parts, ", "@)) ==> ends_with_comma(parts.last()),
    decreases parts.len(),
{
    reveal_strlit(", ");
    let sep = ", "@;
    if parts.len() == 1 {
        lemma_none_below(parts[0], parts[0].len());
    } else {
        let init = parts.drop_last();
        assert forall|i: int| 0 <= i < init.len() implies holds_no_separator(
            #[trigger] init[i],
        ) by {
            assert(init[i] == parts[i]);
        }
        lemma_join_count(init);
        let joined = join(init, sep);
        let with_sep = joined + sep;
        assert(separator_at(sep, 0));
        assert(separators_below(sep, 1) == separators_below(sep, 0) + 1);
        assert(separators_below(sep, 2) == separators_below(sep, 1));
        assert(separator_count(sep) == 1);
        lemma_count_of_concat(joined, sep);
        assert(with_sep.last() == ' ');
        lemma_count_of_concat(with_sep, parts.last());
        lemma_none_below(parts.last(), parts.last().len());
        let whole = with_sep + parts.last();
        assert(join(parts, sep) == whole);
        if parts.last().len() > 0 {
            assert(whole.last() == parts.last().last());
        } else {
            assert(whole =~= with_sep);
        }
    }
}

/// In the representation of an instance with `k >= 1` fields, the separator
/// occurs exactly `k - 1` times: once between each two neighbouring
/// fragments, and neither behind the opening brace nor before the closing
/// one. This holds where no fragment holds the separator itself, the
/// structure's name holds none and ends with no comma, and the last
/// fragment ends with no comma.
pub proof fn separators_stand_between_fragments(routine: GeneratedRoutine, values: Seq<FieldValue>)
    requires
        routine.accepts(values),
        values.len() >= 1,
        forall|i: int|
            0 <= i < values.len() ==> holds_no_separator(
                #[trigger] routine.fragment_texts(values)[i],
            ),
        holds_no_separator(routine.struct_name@),
        !ends_with_comma(routine.struct_name@),
        !ends_with_comma(routine.fragment_texts(values).last()),
    ensures
        routine.output(values).is_some(),
        separator_count(routine.output(values).unwrap()) == values.len() - 1,
{
    reveal_strlit(" { ");
    reveal_strlit(" }");
    let name = routine.struct_name@;
    let open = " { "@;
    let close = " }"@;
    let joined = join(routine.fragment_texts(values), ", "@);
    lemma_join_count(routine.fragment_texts(values));
    assert(holds_no_separator(open));
    assert(holds_no_separator(close));
    lemma_none_below(name, name.len());
    lemma_none_below(open, open.len());
    lemma_none_below(close, close.len());
    lemma_count_of_concat(name, open);
    let head = name + open;
    assert(head.last() == ' ');
    lemma_count_of_concat(head, joined);
    let body = head + joined;
    if joined.len() > 0 {
        assert(body.last() == joined.last());
    } else {
        assert(body =~= head);
    }
    lemma_count_of_concat(body, close);
}

} // verus!
