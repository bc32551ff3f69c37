use vstd::prelude::*;

verus! {

/// The first entry of each run of equal chord names in `s`, with its start.
pub open spec fn run_starts(s: Seq<(String, u64)>) -> Seq<(String, u64)>
    decreases s.len(),
{
    if s.len() == 0 {
        Seq::empty()
    } else {
        let p = run_starts(s.drop_last());
        if s.len() == 1 || s[s.len() - 1].0@ != s[s.len() - 2].0@ {
            p.push(s.last())
        } else {
            p
        }
    }
}

/// Keeps a chord and its start time (microseconds) only where the chord
/// name differs from the one before it.
pub fn chords_starts(chords: &Vec<(String, u64)>) -> (r: Vec<(String, u64)>)
    ensures
        r@ == run_starts(chords@),
{
    let mut result: Vec<(String, u64)> = Vec::new();
    let mut i: usize = 0;
    while i < chords.len()
        invariant
            i <= chords@.len(),
            result@ == run_starts(chords@.subrange(0, i as int)),
        decreases chords@.len() - i,
    {
        let ghost prefix = chords@.subrange(0, i as int + 1);
        assert(prefix.drop_last() =~= chords@.subrange(0, i as int));
        if i == 0 || chords[i].0 != chords[i - 1].0 {
            result.push((chords[i].0.clone(), chords[i].1));
        }
        i = i + 1;
    }
    assert(chords@.subrange(0, chords@.len() as int) =~= chords@);
    result
}

} // verus!
