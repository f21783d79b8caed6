use vstd::prelude::*;

verus! {

/// What a failed read yields in place of the file's contents.
pub open spec fn fallback_text() -> Seq<char> {
    seq!['F', 'i', 'l', 'e', ' ', 'n', 'o', 't', ' ', 'p', 'r', 'e', 's', 'e', 'n', 't', '!']
}

/// The contents that a read produced, or the fixed fallback text when the read
/// failed (`None`).
pub fn contents_or_fallback(read: Option<String>) -> (r: String)
    ensures
        read matches Some(d) ==> r@ == d@,
        read is None ==> r@ == fallback_text(),
{
    match read {
        Some(data) => data,
        None => {
            proof {
                reveal_strlit("File not present!");
            }
            String::from_str("File not present!")
        },
    }
}

} // verus!
