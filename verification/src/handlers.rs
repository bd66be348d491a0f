//! The query handler of the service: it answers with the full name.

use vstd::prelude::*;

verus! {

/// A query: a person's names, and their address when known.
pub struct Request {
    pub first_name: String,
    pub last_name: String,
    pub ip_address: Option<String>,
}

/// The answer to a query.
pub struct Response {
    pub name: String,
}

/// A full name: the first name, a space, the last name.
pub open spec fn full_name(first: Seq<char>, last: Seq<char>) -> Seq<char> {
    first + " "@ + last
}

/// A full name holds the whole first name, then one space, then the whole
/// last name, whatever their lengths: nothing is cut and nothing is added.
pub proof fn lemma_full_name_whole(first: Seq<char>, last: Seq<char>)
    ensures
        full_name(first, last).len() == first.len() + 1 + last.len(),
        full_name(first, last).subrange(0, first.len() as int) == first,
        full_name(first, last)[first.len() as int] == ' ',
        full_name(first, last).subrange(first.len() + 1int, full_name(first, last).len() as int) == last,
{
    reveal_strlit(" ");
    let f = full_name(first, last);
    assert(f.subrange(0, first.len() as int) =~= first);
    assert(f.subrange(first.len() + 1int, f.len() as int) =~= last);
}

/// Joins first and last name with a space.
pub fn join_names(first: &str, last: &str) -> (res: String)
    ensures
        res@ == full_name(first@, last@),
        res@ == first@ + " "@ + last@,
        res@.len() == first@.len() + 1 + last@.len(),
{
    proof {
        reveal_strlit(" ");
    }
    String::from_str(first).concat(" ").concat(last)
}

/// Answers a query with the full name it holds.
pub fn query(request: &Request) -> (res: Response)
    ensures
        res.name@ == full_name(request.first_name@, request.last_name@),
        res.name@ == request.first_name@ + " "@ + request.last_name@,
{
    Response { name: join_names(request.first_name.as_str(), request.last_name.as_str()) }
}

} // verus!
