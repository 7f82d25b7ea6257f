//! Querying the portal for user information and online devices.
use vstd::prelude::*;
use crate::error::{parse_failure, request_failure, Error, ErrorView, Kind};
use crate::network::entity::HttpReply;
use crate::text::{parse_u16, parsed_u16, text_of};

verus! {

/// The record a query is answered with: a code (`1` for success), the
/// records asked for, and a message.
pub struct QueryResponse<T> {
    pub code: String,
    pub data: Vec<T>,
    pub msg: String,
}

/// The body of a query reply, or the error it stands for: a failed request,
/// a status other than 200 (reported with the status and whatever body could
/// be read), or an unreadable body.
pub fn query_reply_text(reply: Option<HttpReply>) -> (r: Result<String, Error>)
    ensures
        match reply {
            None => r matches Err(e) && e@ == request_failure(),
            Some(rep) => if rep.status != 200 {
                r matches Err(e) && e@ == (ErrorView {
                    kind: Kind::Request,
                    code: Some(rep.status),
                    text: text_of(rep.body),
                })
            } else {
                match rep.body {
                    Some(t) => r matches Ok(s) && s@ == t@,
                    None => r matches Err(e) && e@ == request_failure(),
                }
            },
        },
{
    match reply {
        None => Err(Error::new(Kind::Request)),
        Some(rep) => if rep.status != 200 {
            Err(Error::with_detail(Kind::Request, Some(rep.status), rep.body))
        } else {
            match rep.body {
                Some(t) => Ok(t),
                None => Err(Error::new(Kind::Request)),
            }
        },
    }
}

/// Whether a reply code reports success.
pub open spec fn is_success_code(code: Seq<char>) -> bool {
    code == "1"@
}

/// Whether `code` is `1`.
pub fn is_success(code: &str) -> (b: bool)
    ensures
        b == is_success_code(code@),
        b == (code@ == seq!['1']),
{
    proof {
        reveal_strlit("1");
    }
    if code.unicode_len() == 1 && code.get_char(0) == '1' {
        assert(code@ =~= "1"@);
        assert(code@ =~= seq!['1']);
        true
    } else {
        proof {
            law_success_code(code@);
        }
        false
    }
}

/// A reply code means success exactly when it is the one-character text `1`:
/// `"1"` succeeds; `"0"`, `"2"`, `"01"`, `""` and every other code do not.
pub proof fn law_success_code(code: Seq<char>)
    ensures
        is_success_code(code) <==> code == seq!['1'],
{
    reveal_strlit("1");
    if code == seq!['1'] {
        assert(code =~= "1"@);
    }
    if is_success_code(code) {
        assert(code =~= seq!['1']);
    }
}

/// The result of a query whose payload was read as `parsed` (`None` where it
/// could not be): the records when the code is `1`, else a refusal carrying
/// the code as a number and the message.
pub fn query_outcome<T>(parsed: Option<QueryResponse<T>>) -> (r: Result<Vec<T>, Error>)
    requires
        parsed matches Some(p) ==> p.code@ == seq!['1'] || parsed_u16(p.code@) is Some,
    ensures
        match parsed {
            None => r matches Err(e) && e@ == parse_failure(),
            Some(p) => if p.code@ == seq!['1'] {
                r matches Ok(d) && d == p.data
            } else {
                r matches Err(e) && e@ == (ErrorView {
                    kind: Kind::Query,
                    code: parsed_u16(p.code@),
                    text: Some(p.msg@),
                })
            },
        },
{
    match parsed {
        None => Err(Error::new(Kind::Parse)),
        Some(p) => if is_success(p.code.as_str()) {
            Ok(p.data)
        } else {
            let code = parse_u16(p.code.as_str());
            Err(Error::with_detail(Kind::Query, Some(code.unwrap()), Some(p.msg)))
        },
    }
}

} // verus!
