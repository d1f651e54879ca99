use vstd::prelude::*;

verus! {

/// The language names kept from the native enumeration: every present
/// entry, in order; null entries are skipped defensively.
pub open spec fn kept_languages(entries: Seq<Option<String>>) -> Seq<String>
    decreases entries.len(),
{
    if entries.len() == 0 {
        Seq::empty()
    } else {
        let rest = kept_languages(entries.drop_last());
        match entries.last() {
            Some(name) => rest.push(name),
            None => rest,
        }
    }
}

/// How many entries of the enumeration came back null.
pub open spec fn null_entry_count(entries: Seq<Option<String>>) -> nat
    decreases entries.len(),
{
    if entries.len() == 0 {
        0
    } else {
        null_entry_count(entries.drop_last()) + if entries.last() is None {
            1nat
        } else {
            0nat
        }
    }
}

/// Collect the supported languages from the per-index native answers:
/// one entry per reported index, null entries dropped.
pub fn get_supported_languages(entries: Vec<Option<String>>) -> (langs: Vec<String>)
    ensures
        langs@ == kept_languages(entries@),
{
    let mut langs: Vec<String> = Vec::new();
    let mut i: usize = 0;
    while i < entries.len()
        invariant
            i <= entries@.len(),
            langs@ == kept_languages(entries@.take(i as int)),
        decreases entries@.len() - i,
    {
        match &entries[i] {
            Some(name) => {
                langs.push(name.clone());
            },
            None => {},
        }
        proof {
            let taken = entries@.take(i + 1);
            assert(taken.drop_last() =~= entries@.take(i as int));
            assert(taken.last() == entries@[i as int]);
        }
        i = i + 1;
    }
    proof {
        assert(entries@.take(entries@.len() as int) =~= entries@);
    }
    langs
}

/// The enumeration keeps exactly the non-null entries: the kept count is
/// the native-reported count minus the null entries encountered.
pub proof fn lemma_language_count(entries: Seq<Option<String>>)
    ensures
        kept_languages(entries).len() + null_entry_count(entries) == entries.len(),
    decreases entries.len(),
{
    if entries.len() > 0 {
        lemma_language_count(entries.drop_last());
    }
}

} // verus!
