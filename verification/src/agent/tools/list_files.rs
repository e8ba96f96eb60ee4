use vstd::prelude::*;
use vstd::string::*;
use crate::text::{join_strings, seq_join};

verus! {

/// The line of one entry of a listing: the name, indented by two spaces.
pub open spec fn entry_line(name: Seq<char>) -> Seq<char> {
    "  "@ + name
}

/// The listing of a directory: a header that names it, then one line per
/// entry, the directories first and then the files.
pub open spec fn listing_text(path: Seq<char>, dirs: Seq<String>, files: Seq<String>) -> Seq<char> {
    "Directory: "@ + path + "\n"@ + seq_join(
        (dirs + files).map_values(|n: String| entry_line(n@)),
        "\n"@,
    )
}

/// The text that `list_files` gives for the directory `path` with the
/// subdirectories `dirs` and the files `files`.
pub fn directory_listing(path: &str, dirs: &Vec<String>, files: &Vec<String>) -> (r: String)
    ensures
        r@ == listing_text(path@, dirs@, files@),
{
    let ghost all = dirs@ + files@;
    let mut lines: Vec<String> = Vec::new();
    let mut i: usize = 0;
    while i < dirs.len()
        invariant
            i <= dirs@.len(),
            all == dirs@ + files@,
            lines@.len() == i,
            forall|j: int| 0 <= j < i ==> #[trigger] lines@[j]@ == entry_line(all[j]@),
        decreases dirs@.len() - i,
    {
        let mut line = String::from_str("  ");
        line.append(dirs[i].as_str());
        lines.push(line);
        i = i + 1;
    }
    let mut k: usize = 0;
    while k < files.len()
        invariant
            k <= files@.len(),
            all == dirs@ + files@,
            lines@.len() == dirs@.len() + k,
            forall|j: int| 0 <= j < dirs@.len() + k ==> #[trigger] lines@[j]@ == entry_line(all[j]@),
        decreases files@.len() - k,
    {
        let mut line = String::from_str("  ");
        line.append(files[k].as_str());
        lines.push(line);
        k = k + 1;
    }
    let body = join_strings(&lines, "\n");
    assert(lines@.map_values(|s: String| s@) =~= all.map_values(|n: String| entry_line(n@)));
    let mut r = String::from_str("Directory: ");
    r.append(path);
    r.append("\n");
    r.append(body.as_str());
    r
}

} // verus!
