use vstd::prelude::*;
use vstd::string::*;
use crate::text::{decimal, decimal_string};

verus! {

/// The number of extracted files that the summary names one by one.
pub const LISTED_FILES: usize = 20;

/// The line of one extracted file.
pub open spec fn file_line(path: Seq<char>) -> Seq<char> {
    "  - "@ + path + "\n"@
}

/// The lines of the files of `paths`, one after the other.
pub open spec fn file_lines(paths: Seq<String>) -> Seq<char>
    decreases paths.len(),
{
    if paths.len() == 0 {
        seq![]
    } else {
        file_lines(paths.drop_last()) + file_line(paths.last()@)
    }
}

/// The summary of an extraction of `files` into `extract_to`: how many files
/// there are and where they went, the first `LISTED_FILES` of them, and how
/// many more there are, if any.
pub open spec fn summary_text(files: Seq<String>, extract_to: Seq<char>) -> Seq<char> {
    let n = files.len();
    let head = "Extracted "@ + decimal(n) + " files to "@ + extract_to + "\n\nContents:\n"@;
    let shown = if n > LISTED_FILES { files.take(LISTED_FILES as int) } else { files };
    let tail = if n > LISTED_FILES {
        "  ... and "@ + decimal((n - LISTED_FILES) as nat) + " more files\n"@
    } else {
        seq![]
    };
    head + file_lines(shown) + tail
}

/// The message that `unzip_file` gives after it extracted `file_list` into
/// `extract_to`.
pub fn extraction_summary(file_list: &Vec<String>, extract_to: &str) -> (r: String)
    ensures
        r@ == summary_text(file_list@, extract_to@),
{
    let n = file_list.len();
    let mut r = String::from_str("Extracted ");
    let count = decimal_string(n as u64);
    r.append(count.as_str());
    r.append(" files to ");
    r.append(extract_to);
    r.append("\n\nContents:\n");
    let ghost head = r@;
    let shown: usize = if n > LISTED_FILES { LISTED_FILES } else { n };
    let mut i: usize = 0;
    while i < shown
        invariant
            i <= shown <= file_list@.len(),
            r@ == head + file_lines(file_list@.take(i as int)),
        decreases shown - i,
    {
        assert(file_list@.take(i + 1).drop_last() =~= file_list@.take(i as int));
        r.append("  - ");
        r.append(file_list[i].as_str());
        r.append("\n");
        i = i + 1;
    }
    if n <= LISTED_FILES {
        assert(file_list@.take(n as int) =~= file_list@);
    }
    if n > LISTED_FILES {
        r.append("  ... and ");
        let more = decimal_string((n - LISTED_FILES) as u64);
        r.append(more.as_str());
        r.append(" more files\n");
    }
    r
}

} // verus!
