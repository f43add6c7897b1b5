//! The two predicates every flag family is built on, and the laws that hold
//! of them whatever the family's mask is.

use vstd::prelude::*;

verus! {

/// No bit of `value` lies outside `mask`.
pub open spec fn within_mask(value: u32, mask: u32) -> bool {
    value & !mask == 0
}

/// Every bit of `subset` is present in `value`: a subset test, not an
/// overlap test.
pub open spec fn has_all(value: u32, subset: u32) -> bool {
    value & subset == subset
}

/// The empty value is valid for every mask and contains no bit.
pub proof fn lemma_none_is_valid(mask: u32, subset: u32)
    by (bit_vector)
    ensures
        within_mask(0u32, mask),
        subset != 0 ==> !has_all(0u32, subset),
{
}

/// The union of a family's named bits is itself a valid value of the family.
pub proof fn lemma_mask_is_valid(mask: u32)
    by (bit_vector)
    ensures
        within_mask(mask, mask),
{
}

/// Any union of values that are valid for a mask is valid for it, and so is
/// every part of a valid value.
pub proof fn lemma_valid_closed_under_union(a: u32, b: u32, mask: u32)
    by (bit_vector)
    ensures
        within_mask(a | b, mask) <==> within_mask(a, mask) && within_mask(b, mask),
{
}

/// A value that carries any bit outside the mask is rejected; in particular
/// a single bit that is none of the named ones.
pub proof fn lemma_stray_bit_is_invalid(value: u32, bit: u32, mask: u32)
    by (bit_vector)
    requires
        bit != 0,
        bit & mask == 0,
        value & bit == bit,
    ensures
        !within_mask(value, mask),
        !within_mask(bit, mask),
{
}

/// A union contains each of its operands.
pub proof fn lemma_union_has_operands(a: u32, b: u32)
    by (bit_vector)
    ensures
        has_all(a | b, a),
        has_all(a | b, b),
{
}

/// A value contains a union exactly when the other operand brings no bit
/// that the value lacks.
pub proof fn lemma_has_union_iff_no_new_bit(a: u32, b: u32)
    by (bit_vector)
    ensures
        has_all(a, a | b) <==> b & !a == 0,
{
}

/// Clearing a subset leaves none of its bits and touches no other bit.
pub proof fn lemma_clear_removes(value: u32, subset: u32)
    by (bit_vector)
    ensures
        (value & !subset) & subset == 0,
        (value & !subset) | (value & subset) == value,
        subset != 0 ==> !has_all(value & !subset, subset),
{
}

/// Whether none of the first `n` named constants is fully present in
/// `value`.
pub open spec fn none_set(value: u32, names: Seq<(u32, &'static str)>, n: int) -> bool {
    forall|i: int| 0 <= i < n && i < names.len() ==> !has_all(value, (#[trigger] names[i]).0)
}

/// The names of those among the first `n` constants that are fully present
/// in `value`, in order, joined by ` | `.
pub open spec fn joined_names(value: u32, names: Seq<(u32, &'static str)>, n: nat) -> Seq<char>
    decreases n,
{
    if n == 0 || n > names.len() {
        Seq::empty()
    } else {
        let before = joined_names(value, names, (n - 1) as nat);
        let entry = names[n - 1];
        if !has_all(value, entry.0) {
            before
        } else if none_set(value, names, n - 1) {
            entry.1@
        } else {
            before + " | "@ + entry.1@
        }
    }
}

/// The text of a flag value: the type's name, then in round brackets the
/// joined names of the constants that are present, or `NONE`.
pub open spec fn flags_text(family: Seq<char>, value: u32, names: Seq<(u32, &'static str)>) -> Seq<
    char,
> {
    let inner = if none_set(value, names, names.len() as int) {
        "NONE"@
    } else {
        joined_names(value, names, names.len())
    };
    family + "("@ + inner + ")"@
}

/// Writes out a flag value by the names in `table`.
pub fn describe_flags(family: &str, value: u32, table: &[(u32, &'static str)]) -> (text: String)
    ensures
        text@ == flags_text(family@, value, table@),
{
    let mut list = String::new();
    let mut first = true;
    let mut i: usize = 0;
    while i < table.len()
        invariant
            i <= table.len(),
            first == none_set(value, table@, i as int),
            list@ == joined_names(value, table@, i as nat),
        decreases table.len() - i,
    {
        let (bit, name) = table[i];
        if value & bit == bit {
            if first {
                first = false;
                assert(list@ + name@ =~= name@) by {
                    lemma_nothing_joined(value, table@, i as nat);
                }
            } else {
                list.append(" | ");
            }
            list.append(name);
        }
        i += 1;
    }
    let mut text = String::from_str(family);
    text.append("(");
    if first {
        text.append("NONE");
    } else {
        text.append(list.as_str());
    }
    text.append(")");
    text
}

/// Where none of the first `n` constants is present, nothing is joined.
pub proof fn lemma_nothing_joined(value: u32, names: Seq<(u32, &'static str)>, n: nat)
    requires
        none_set(value, names, n as int),
    ensures
        joined_names(value, names, n) == Seq::<char>::empty(),
    decreases n,
{
    if n > 0 && n <= names.len() {
        lemma_nothing_joined(value, names, (n - 1) as nat);
    }
}

} // verus!
