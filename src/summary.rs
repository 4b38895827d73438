//! The one-line-per-sink summary printed after dry validation.

use vstd::prelude::*;

use crate::config::FilterConfig;

verus! {

/// The longest sink name, in characters.
pub open spec fn max_name_len(fs: Seq<FilterConfig>) -> nat
    decreases fs.len(),
{
    if fs.len() == 0 {
        0
    } else {
        let rest = max_name_len(fs.drop_last());
        if fs.last().name@.len() > rest {
            fs.last().name@.len()
        } else {
            rest
        }
    }
}

/// The longest output file name, in characters.
pub open spec fn max_file_name_len(fs: Seq<FilterConfig>) -> nat
    decreases fs.len(),
{
    if fs.len() == 0 {
        0
    } else {
        let rest = max_file_name_len(fs.drop_last());
        if fs.last().file_name@.len() > rest {
            fs.last().file_name@.len()
        } else {
            rest
        }
    }
}

/// `s` followed by spaces up to `width` characters.
pub open spec fn pad(s: Seq<char>, width: nat) -> Seq<char> {
    if s.len() >= width {
        s
    } else {
        s + Seq::new((width - s.len()) as nat, |_i: int| ' ')
    }
}

pub open spec fn bool_text(b: bool) -> Seq<char> {
    if b {
        "true"@
    } else {
        "false"@
    }
}

/// The summary line of one sink, with its name and file name padded to
/// the given widths.
pub open spec fn summary_line(f: FilterConfig, name_width: nat, file_width: nat) -> Seq<char> {
    "Sink name: "@ + pad(f.name@, name_width) + " Output file name: "@ + pad(f.file_name@, file_width)
        + " Invert match: "@ + bool_text(f.invert)
}

/// Appends `s` padded with spaces to `width + 2` characters.
fn append_padded(out: &mut String, s: &str, width: usize)
    requires
        s@.len() <= width,
    ensures
        final(out)@ == old(out)@ + pad(s@, (width + 2) as nat),
{
    let len = s.unicode_len();
    out.append(s);
    let mut k: usize = len;
    proof {
        reveal_strlit(" ");
        reveal_strlit("  ");
        assert(Seq::new((k - len) as nat, |_i: int| ' ') =~= Seq::<char>::empty());
    }
    while k < width
        invariant
            len == s@.len(),
            len <= k <= width,
            out@ == old(out)@ + s@ + Seq::new((k - len) as nat, |_i: int| ' '),
        decreases width - k,
    {
        out.append(" ");
        proof {
            reveal_strlit(" ");
            assert(Seq::new((k - len) as nat, |_i: int| ' ') + " "@ =~= Seq::new((k + 1 - len) as nat, |_i: int| ' '));
        }
        k = k + 1;
    }
    out.append("  ");
    proof {
        reveal_strlit("  ");
        assert(Seq::new((width - len) as nat, |_i: int| ' ') + "  "@ =~= Seq::new((width + 2 - len) as nat, |_i: int| ' '));
        assert(old(out)@ + s@ + Seq::new((width - len) as nat, |_i: int| ' ') + "  "@ =~= old(out)@ + pad(s@, (width + 2) as nat));
    }
}

/// One line per sink, in registry order, giving its name, its output file
/// name and its invert flag; names and file names are padded to two more
/// than the longest of each.
pub fn display_config_summary(filters: &Vec<FilterConfig>) -> (r: Vec<String>)
    ensures
        r@.len() == filters@.len(),
        forall|i: int|
            0 <= i < filters@.len() ==> (#[trigger] r@[i])@ == summary_line(
                filters@[i],
                max_name_len(filters@) + 2,
                max_file_name_len(filters@) + 2,
            ),
{
    let n = filters.len();
    let mut name_len: usize = 0;
    let mut file_name_len: usize = 0;
    let mut i: usize = 0;
    while i < n
        invariant
            n == filters@.len(),
            0 <= i <= n,
            name_len == max_name_len(filters@.take(i as int)),
            file_name_len == max_file_name_len(filters@.take(i as int)),
        decreases n - i,
    {
        proof {
            assert(filters@.take(i + 1).drop_last() =~= filters@.take(i as int));
        }
        let l = filters[i].name.as_str().unicode_len();
        if l > name_len {
            name_len = l;
        }
        let l = filters[i].file_name.as_str().unicode_len();
        if l > file_name_len {
            file_name_len = l;
        }
        i = i + 1;
    }
    proof {
        assert(filters@.take(n as int) =~= filters@);
        lemma_max_lens(filters@);
    }
    let mut lines: Vec<String> = Vec::new();
    let mut i: usize = 0;
    while i < n
        invariant
            n == filters@.len(),
            0 <= i <= n,
            name_len == max_name_len(filters@),
            file_name_len == max_file_name_len(filters@),
            forall|j: int| 0 <= j < n ==> (#[trigger] filters@[j]).name@.len() <= name_len,
            forall|j: int| 0 <= j < n ==> (#[trigger] filters@[j]).file_name@.len() <= file_name_len,
            lines@.len() == i,
            forall|j: int|
                0 <= j < i ==> (#[trigger] lines@[j])@ == summary_line(
                    filters@[j],
                    max_name_len(filters@) + 2,
                    max_file_name_len(filters@) + 2,
                ),
        decreases n - i,
    {
        let f = &filters[i];
        let mut line = String::from_str("Sink name: ");
        append_padded(&mut line, f.name.as_str(), name_len);
        line.append(" Output file name: ");
        append_padded(&mut line, f.file_name.as_str(), file_name_len);
        line.append(" Invert match: ");
        if f.invert {
            line.append("true");
        } else {
            line.append("false");
        }
        proof {
            assert(line@ =~= summary_line(filters@[i as int], (name_len + 2) as nat, (file_name_len + 2) as nat));
        }
        lines.push(line);
        i = i + 1;
    }
    lines
}

/// Every name and file name fits within the longest.
proof fn lemma_max_lens(fs: Seq<FilterConfig>)
    ensures
        forall|j: int| 0 <= j < fs.len() ==> (#[trigger] fs[j]).name@.len() <= max_name_len(fs),
        forall|j: int| 0 <= j < fs.len() ==> (#[trigger] fs[j]).file_name@.len() <= max_file_name_len(fs),
    decreases fs.len(),
{
    if fs.len() > 0 {
        lemma_max_lens(fs.drop_last());
        assert forall|j: int| 0 <= j < fs.len() - 1 implies #[trigger] fs[j] == fs.drop_last()[j] by {}
    }
}

} // verus!
