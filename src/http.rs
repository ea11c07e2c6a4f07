use vstd::prelude::*;

verus! {

/// A response of the fixed probe routes: a status code and a text body.
#[derive(Debug)]
pub struct Reply {
    pub status: u16,
    pub body: String,
}

/// The body of the greeting route.
pub open spec fn greeting() -> Seq<char> {
    seq!['H', 'e', 'l', 'l', 'o', ' ', 'A', 'c', 't', 'i', 'x', ' ', 'W', 'e', 'b', '!']
}

/// `GET /`: a fixed greeting with status 200, which also serves as the liveness probe.
pub fn hello() -> (r: Reply)
    ensures
        r.status == 200,
        r.body@ == greeting(),
{
    let body = "Hello Actix Web!".to_owned();
    proof {
        reveal_strlit("Hello Actix Web!");
    }
    assert(body@ =~= greeting());
    Reply { status: 200, body }
}

/// `POST /echo`: the request body returned verbatim with status 200.
pub fn echo(req_body: String) -> (r: Reply)
    ensures
        r.status == 200,
        r.body@ == req_body@,
{
    Reply { status: 200, body: req_body }
}

} // verus!
