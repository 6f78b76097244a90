use vstd::prelude::*;

verus! {

/// The HTTP reply of a successful pipeline: always status 200, with the log
/// lines as a JSON array of strings in the body.
pub struct Response {
    pub status: u16,
    pub body: String,
}

impl Clone for Response {
    fn clone(&self) -> (r: Self)
        ensures
            r == *self,
    {
        Response { status: self.status, body: self.body.clone() }
    }
}

/// The JSON text encoding `lines` as an array of strings, in order.
pub uninterp spec fn json_of(lines: Seq<Seq<char>>) -> Seq<char>;

/// The views of a sequence of owned strings.
pub open spec fn lines_view(lines: Seq<String>) -> Seq<Seq<char>> {
    lines.map_values(|s: String| s@)
}

/// Relies on serde_json::to_string: encodes a vector of strings as a JSON
/// array of strings, in order; it depends on the strings alone and cannot
/// fail on this type. An empty vector encodes as the empty array.
#[verifier::external_body]
fn encode_json_lines(lines: &Vec<String>) -> (r: String)
    ensures
        r@ == json_of(lines_view(lines@)),
        lines@.len() == 0 ==> r@ == "[]"@,
{
    match serde_json::to_string(lines) {
        Ok(s) => s,
        Err(_) => String::new(),
    }
}

/// Wraps the ordered log lines into the successful HTTP reply: status 200
/// and the lines serialized as a JSON array, preserving their order and
/// content.
pub fn render_response(lines: &Vec<String>) -> (r: Response)
    ensures
        r.status == 200,
        r.body@ == json_of(lines_view(lines@)),
{
    Response { status: 200, body: encode_json_lines(lines) }
}

} // verus!
