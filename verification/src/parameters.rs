//! The settings of the service, as they come in one parameter value: lines
//! of the form `NAME=value`.

use crate::text::split;
use crate::text::split_text;
use vstd::prelude::*;

verus! {

/// The setting that one line holds: a line that is not empty and falls into
/// exactly two pieces at `=` gives the pair of them, any other line nothing.
pub open spec fn line_settings(line: Seq<char>) -> Seq<(Seq<char>, Seq<char>)> {
    let pieces = split(line, '=');
    if line.len() > 0 && pieces.len() == 2 {
        seq![(pieces[0], pieces[1])]
    } else {
        seq![]
    }
}

/// The settings that `lines` hold, in the order of the lines.
pub open spec fn lines_settings(lines: Seq<Seq<char>>) -> Seq<(Seq<char>, Seq<char>)>
    decreases lines.len(),
{
    if lines.len() == 0 {
        seq![]
    } else {
        lines_settings(lines.drop_last()) + line_settings(lines.last())
    }
}

/// The settings that a parameter value holds: those of its lines.
pub open spec fn settings_of(value: Seq<char>) -> Seq<(Seq<char>, Seq<char>)> {
    lines_settings(split(value, '\n'))
}

/// Reads the settings out of a parameter value, as pairs of name and value.
///
/// Empty lines, lines without `=` and lines with more than one `=` are
/// passed over.
pub fn parse_settings(value: &str) -> (settings: Vec<(String, String)>)
    ensures
        settings.deep_view() == settings_of(value@),
{
    let lines = split_text(value, '\n');
    let ghost views = lines.deep_view();
    let mut settings: Vec<(String, String)> = Vec::new();
    assert(settings.deep_view() =~= lines_settings(views.take(0)));
    let mut i: usize = 0;
    while i < lines.len()
        invariant
            i <= lines.len(),
            views == lines.deep_view(),
            settings.deep_view() == lines_settings(views.take(i as int)),
        decreases lines.len() - i,
    {
        let ghost before = settings.deep_view();
        proof {
            assert(views.take(i + 1).drop_last() =~= views.take(i as int));
            assert(views.take(i + 1).last() == lines@[i as int]@);
        }
        let line = lines[i].as_str();
        if !line.is_empty() {
            let mut pieces = split_text(line, '=');
            if pieces.len() == 2 {
                let ghost name = pieces@[0]@;
                let ghost text = pieces@[1]@;
                assert(pieces.deep_view()[0] == name && pieces.deep_view()[1] == text);
                let second = pieces.pop().unwrap();
                let first = pieces.pop().unwrap();
                settings.push((first, second));
                assert(settings.deep_view() =~= before + seq![(name, text)]);
            }
        }
        assert(settings.deep_view() =~= before + line_settings(lines@[i as int]@));
        i += 1;
    }
    assert(views.take(lines.len() as int) =~= views);
    settings
}

} // verus!
