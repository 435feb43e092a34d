use vstd::prelude::*;

verus! {

/// Status code of a request that hit the root route.
pub const OK: u16 = 200;

/// Status code of every other request.
pub const NOT_FOUND: u16 = 404;

/// What the handler answers: a status code and a body.
pub struct Reply {
    pub status: u16,
    pub body: String,
}

/// The one request the server serves: `GET /`.
pub open spec fn is_root_get(method: Seq<char>, path: Seq<char>) -> bool {
    method == "GET"@ && path == "/"@
}

/// Body sent for `GET /`.
pub open spec fn success_body() -> Seq<char> {
    "success!\n"@
}

fn same_text(a: &str, b: &str) -> (r: bool)
    ensures
        r == (a@ == b@),
{
    let x: String = a.to_owned();
    let y: String = b.to_owned();
    x == y
}

/// Answers one request given its method and the path of its URI.
pub fn echo(method: &str, path: &str) -> (r: Reply)
    ensures
        is_root_get(method@, path@) ==> r.status == OK && r.body@ == success_body(),
        !is_root_get(method@, path@) ==> r.status == NOT_FOUND && r.body@.len() == 0,
{
    proof {
        reveal_strlit("GET");
        reveal_strlit("/");
        reveal_strlit("success!\n");
    }
    if same_text(method, "GET") && same_text(path, "/") {
        Reply { status: OK, body: "success!\n".to_owned() }
    } else {
        Reply { status: NOT_FOUND, body: String::new() }
    }
}

} // verus!
