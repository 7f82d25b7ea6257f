//! Logging in to the portal.
use vstd::prelude::*;
use crate::error::{parse_failure, request_failure, Error, ErrorView, Kind};
use crate::network::entity::HttpReply;

verus! {

/// The portal's answer to a login.
pub struct Response {
    pub result: i32,
    pub v46ip: String,
    pub olmac: String,
    pub uid: String,
}

/// The body of a login reply, or the error it stands for: a failed request,
/// or a status other than 200, reported with the status and the body (a
/// body that could not be read fails the request).
pub fn login_reply_text(reply: Option<HttpReply>) -> (r: Result<String, Error>)
    ensures
        match reply {
            None => r matches Err(e) && e@ == request_failure(),
            Some(rep) => match rep.body {
                None => r matches Err(e) && e@ == request_failure(),
                Some(t) => if rep.status != 200 {
                    r matches Err(e) && e@ == (ErrorView {
                        kind: Kind::Request,
                        code: Some(rep.status),
                        text: Some(t@),
                    })
                } else {
                    r matches Ok(s) && s@ == t@
                },
            },
        },
{
    match reply {
        None => Err(Error::new(Kind::Request)),
        Some(rep) => match rep.body {
            None => Err(Error::new(Kind::Request)),
            Some(t) => if rep.status != 200 {
                Err(Error::with_detail(Kind::Request, Some(rep.status), Some(t)))
            } else {
                Ok(t)
            },
        },
    }
}

/// The result of a login whose payload was read as `parsed` (`None` where
/// it could not be).
pub fn login_outcome(parsed: Option<Response>) -> (r: Result<Response, Error>)
    ensures
        match parsed {
            Some(p) => r == Ok::<Response, Error>(p),
            None => r matches Err(e) && e@ == parse_failure(),
        },
{
    match parsed {
        Some(p) => Ok(p),
        None => Err(Error::new(Kind::Parse)),
    }
}

} // verus!
