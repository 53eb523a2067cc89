use vstd::prelude::*;
use vstd::string::*;

verus! {

/// `s` without the `.` characters at its end.
pub open spec fn trim_trailing_dots(s: Seq<char>) -> Seq<char>
    decreases s.len(),
{
    if s.len() > 0 && s.last() == '.' {
        trim_trailing_dots(s.drop_last())
    } else {
        s
    }
}

/// The share link as the hosting service returned it, without the `.`
/// that it puts at the end of links to videos.
pub fn hosted_link(link: &str) -> (r: String)
    ensures
        r@ == trim_trailing_dots(link@),
{
    let mut end = link.unicode_len();
    assert(link@.subrange(0, end as int) =~= link@);
    while end > 0 && link.get_char(end - 1) == '.'
        invariant
            end <= link@.len(),
            trim_trailing_dots(link@) == trim_trailing_dots(link@.subrange(0, end as int)),
        decreases end,
    {
        assert(link@.subrange(0, end as int).drop_last() =~= link@.subrange(0, end - 1));
        end = end - 1;
    }
    assert(end > 0 ==> link@.subrange(0, end as int).last() == link@[end - 1]);
    String::from_str(link.substring_char(0, end))
}

/// The value of the `Authorization` header of an upload.
pub fn authorization(client_id: &str) -> (r: String)
    ensures
        r@ == "Client-ID "@ + client_id@,
{
    let mut r = String::from_str("Client-ID ");
    r.append(client_id);
    r
}

} // verus!
