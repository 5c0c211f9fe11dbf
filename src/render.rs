//! Assembly of the display string from the extracted entries.

use vstd::prelude::*;

verus! {

/// The parts joined by `sep`, in order.
pub open spec fn join(parts: Seq<Seq<char>>, sep: Seq<char>) -> Seq<char>
    decreases parts.len(),
{
    if parts.len() == 0 {
        Seq::empty()
    } else if parts.len() == 1 {
        parts[0]
    } else {
        join(parts.drop_last(), sep) + sep + parts.last()
    }
}

/// The views of a list of strings.
pub open spec fn views(v: Seq<String>) -> Seq<Seq<char>> {
    v.map_values(|s: String| s@)
}

/// The display string: "No results." when nothing was found; else the
/// phonetics joined by spaces on one line and the translations joined by
/// newlines, either alone when the other is empty, else the first above the
/// second.
pub open spec fn render(phonetics: Seq<Seq<char>>, translations: Seq<Seq<char>>) -> Seq<char> {
    if phonetics.len() == 0 && translations.len() == 0 {
        "No results."@
    } else {
        let line = join(phonetics, " "@);
        let block = join(translations, "\n"@);
        if line.len() == 0 {
            block
        } else if block.len() == 0 {
            line
        } else {
            line + "\n"@ + block
        }
    }
}

/// Joins `parts` with `sep` between each two.
pub fn join_entries(parts: &Vec<String>, sep: &str) -> (r: String)
    ensures
        r@ == join(views(parts@), sep@),
{
    let mut r = String::new();
    let ghost all = views(parts@);
    for i in 0..parts.len()
        invariant
            all == views(parts@),
            r@ == join(all.take(i as int), sep@),
    {
        assert(all.take(i + 1).drop_last() =~= all.take(i as int));
        if i > 0 {
            r.append(sep);
        }
        r.append(parts[i].as_str());
    }
    assert(all.take(parts.len() as int) =~= all);
    r
}

/// The display string for the extracted phonetics and translations.
pub fn render_entries(phonetics: &Vec<String>, translations: &Vec<String>) -> (r: String)
    ensures
        r@ == render(views(phonetics@), views(translations@)),
{
    if phonetics.len() == 0 && translations.len() == 0 {
        return String::from_str("No results.");
    }
    let line = join_entries(phonetics, " ");
    let block = join_entries(translations, "\n");
    if line.as_str().is_empty() {
        block
    } else if block.as_str().is_empty() {
        line
    } else {
        let mut r = line;
        r.append("\n");
        r.append(block.as_str());
        r
    }
}

} // verus!
