//! Encoding labels and the alias table.
//!
//! Labels are compared the way charset registries compare them: ASCII letters
//! match regardless of case, every other character must match exactly.

use vstd::prelude::*;

verus! {

/// The code of `c` with ASCII upper-case letters mapped to lower case.
pub open spec fn fold(c: char) -> int {
    if 'A' <= c && c <= 'Z' {
        c as int + 32
    } else {
        c as int
    }
}

/// A label with every character folded.
pub open spec fn folded(label: Seq<char>) -> Seq<int> {
    Seq::new(label.len(), |i: int| fold(label[i]))
}

/// Two labels name the same entry of the registry.
pub open spec fn same_label(a: Seq<char>, b: Seq<char>) -> bool {
    folded(a) == folded(b)
}

/// The canonical Windows-Cyrillic label.
pub open spec fn windows_cyrillic() -> Seq<char> {
    "windows-1251"@
}

/// The labels that detectors report for text that is in fact Windows-Cyrillic:
/// the two Macintosh-Cyrillic labels, the ISO Cyrillic label and KOI8-R.
pub open spec fn is_cyrillic_alias(label: Seq<char>) -> bool {
    ||| same_label(label, "x-mac-cyrillic"@)
    ||| same_label(label, "x-mac-ukrainian"@)
    ||| same_label(label, "ISO-8859-5"@)
    ||| same_label(label, "KOI8-R"@)
}

/// A label is canonical when the alias table leaves it alone.
pub open spec fn is_canonical(label: Seq<char>) -> bool {
    !is_cyrillic_alias(label)
}

/// The alias table as a function: total, and the identity off the aliases.
pub open spec fn canonical(label: Seq<char>) -> Seq<char> {
    if is_cyrillic_alias(label) {
        windows_cyrillic()
    } else {
        label
    }
}

fn fold_code(c: char) -> (code: u32)
    ensures
        code == fold(c),
{
    let code: u32 = c as u32;
    if 65 <= code && code <= 90 {
        code + 32
    } else {
        code
    }
}

/// Compares two labels, ignoring the case of ASCII letters.
pub fn labels_match(a: &str, b: &str) -> (same: bool)
    ensures
        same == same_label(a@, b@),
{
    let n: usize = a.unicode_len();
    if n != b.unicode_len() {
        assert(folded(a@).len() != folded(b@).len());
        return false;
    }
    let mut i: usize = 0;
    while i < n
        invariant
            i <= n,
            n == a@.len(),
            n == b@.len(),
            forall|j: int| 0 <= j < i ==> fold(a@[j]) == fold(b@[j]),
        decreases n - i,
    {
        if fold_code(a.get_char(i)) != fold_code(b.get_char(i)) {
            assert(folded(a@)[i as int] != folded(b@)[i as int]);
            return false;
        }
        i += 1;
    }
    assert(folded(a@) =~= folded(b@));
    true
}

/// Whether the alias table rewrites `label`.
pub fn is_alias(label: &str) -> (hit: bool)
    ensures
        hit == is_cyrillic_alias(label@),
{
    labels_match(label, "x-mac-cyrillic") || labels_match(label, "x-mac-ukrainian")
        || labels_match(label, "ISO-8859-5") || labels_match(label, "KOI8-R")
}

/// Looks `label` up in the alias table: an alias gives the canonical
/// Windows-Cyrillic label, any other label comes back as it is.
pub fn resolve_alias(label: &str) -> (resolved: String)
    ensures
        resolved@ == canonical(label@),
{
    if is_alias(label) {
        "windows-1251".to_owned()
    } else {
        label.to_owned()
    }
}

/// Every alias is 6, 10, 14 or 15 characters long.
pub proof fn lemma_alias_length(label: Seq<char>)
    requires
        is_cyrillic_alias(label),
    ensures
        label.len() == 6 || label.len() == 10 || label.len() == 14 || label.len() == 15,
{
    reveal_strlit("x-mac-cyrillic");
    reveal_strlit("x-mac-ukrainian");
    reveal_strlit("ISO-8859-5");
    reveal_strlit("KOI8-R");
    assert(folded(label).len() == label.len());
    assert(folded("x-mac-cyrillic"@).len() == 14);
    assert(folded("x-mac-ukrainian"@).len() == 15);
    assert(folded("ISO-8859-5"@).len() == 10);
    assert(folded("KOI8-R"@).len() == 6);
}

/// The canonical Windows-Cyrillic label is not itself an alias.
pub proof fn lemma_windows_cyrillic_is_canonical()
    ensures
        is_canonical(windows_cyrillic()),
{
    reveal_strlit("windows-1251");
    if is_cyrillic_alias(windows_cyrillic()) {
        lemma_alias_length(windows_cyrillic());
    }
}

/// The alias table leaves `UTF-8` alone.
pub proof fn lemma_unicode_is_canonical()
    ensures
        canonical("UTF-8"@) == "UTF-8"@,
{
    reveal_strlit("UTF-8");
    if is_cyrillic_alias("UTF-8"@) {
        lemma_alias_length("UTF-8"@);
    }
}

/// Whatever the alias table returns is canonical.
pub proof fn lemma_canonical_is_canonical(label: Seq<char>)
    ensures
        is_canonical(canonical(label)),
{
    lemma_windows_cyrillic_is_canonical();
}

/// Resolving a canonical label changes nothing.
pub proof fn lemma_canonical_fixed(label: Seq<char>)
    requires
        is_canonical(label),
    ensures
        canonical(label) == label,
{
}

/// Alias resolution is idempotent: a second pass changes nothing.
pub proof fn lemma_canonical_idempotent(label: Seq<char>)
    ensures
        canonical(canonical(label)) == canonical(label),
{
    lemma_canonical_is_canonical(label);
}

} // verus!
