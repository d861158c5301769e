//! Moving bytes in and out of invocations.

use crate::codec::{base64_bytes, base64_decode, base64_encode, base64_text, encodable_len};
use crate::error::{Error, ErrorKind};
use crate::invoke::{InputSource, InputSourceView, InvokeResponse, Output, OutputData};
use crate::text::same_text;
use vstd::prelude::*;

verus! {

/// Position of the first output called `name`, or the number of outputs.
pub open spec fn output_position(outputs: Seq<Output>, name: Seq<char>) -> int
    decreases outputs.len(),
{
    if outputs.len() == 0 {
        0
    } else if outputs[0].name@ == name {
        0
    } else {
        1 + output_position(outputs.drop_first(), name)
    }
}

/// The encoded text that an output carries.
pub open spec fn output_text(data: OutputData) -> Seq<char> {
    match data {
        OutputData::InlineBase64(text) => text@,
    }
}

/// What reading the output `name` of a response gives: its bytes, or the kind
/// of the failure.
pub open spec fn output_bytes(res: InvokeResponse, name: Seq<char>) -> Result<Seq<u8>, ErrorKind> {
    let at = output_position(res.outputs@, name);
    if at >= res.outputs@.len() {
        Err(ErrorKind::OutputNotFound)
    } else {
        match base64_bytes(output_text(res.outputs@[at].data)) {
            Some(bytes) => Ok(bytes),
            None => Err(ErrorKind::InvalidBase64),
        }
    }
}

/// The position is that of an output of the name, and no output before it
/// has the name.
pub proof fn output_position_bounds(outputs: Seq<Output>, name: Seq<char>)
    ensures
        0 <= output_position(outputs, name) <= outputs.len(),
        output_position(outputs, name) < outputs.len() ==> outputs[output_position(
            outputs,
            name,
        )].name@ == name,
        forall|k: int| 0 <= k < output_position(outputs, name) ==> outputs[k].name@ != name,
    decreases outputs.len(),
{
    if outputs.len() != 0 && outputs[0].name@ != name {
        let rest = outputs.drop_first();
        output_position_bounds(rest, name);
        assert forall|k: int| 0 <= k < output_position(outputs, name) implies outputs[k].name@
            != name by {
            if k > 0 {
                assert(rest[k - 1] == outputs[k]);
            }
        }
    }
}

/// Whether a result and its model agree: the same bytes, or the same kind of
/// failure.
pub open spec fn agrees(r: Result<Vec<u8>, Error>, model: Result<Seq<u8>, ErrorKind>) -> bool {
    match (r, model) {
        (Ok(bytes), Ok(expected)) => bytes@ == expected,
        (Err(e), Err(kind)) => e.kind == kind,
        _ => false,
    }
}

/// Utility for exchanging data with the sandbox service.
#[derive(Debug, PartialEq, Eq)]
pub struct RequestBuilder {}

impl RequestBuilder {
    pub fn new() -> (r: Self)
        ensures
            r == (RequestBuilder {  }),
    {
        RequestBuilder {  }
    }

    /// Wraps bytes as an inline payload.
    pub fn intern(&self, data: &[u8]) -> (r: Result<InputSource, Error>)
        ensures
            encodable_len(data@.len()) ==> r is Ok && r->Ok_0.deep_view() == (
            InputSourceView::InlineBase64 { data: base64_text(data@) }),
            !encodable_len(data@.len()) ==> r is Err && r->Err_0.kind == ErrorKind::PayloadTooLarge,
            r matches Ok(InputSource::InlineBase64 { data: text }) ==> base64_bytes(text@) == Some(
                data@,
            ),
    {
        if data.len() / 3 >= usize::MAX / 4 {
            return Err(Error::new(ErrorKind::PayloadTooLarge, "payload too large"));
        }
        Ok(InputSource::InlineBase64 { data: base64_encode(data) })
    }

    /// The bytes that an output carries.
    pub fn read_output_data(&self, out: &OutputData) -> (r: Result<Vec<u8>, Error>)
        ensures
            match base64_bytes(output_text(*out)) {
                Some(bytes) => r is Ok && r->Ok_0@ == bytes,
                None => r is Err && r->Err_0.kind == ErrorKind::InvalidBase64,
            },
    {
        match out {
            OutputData::InlineBase64(text) => match base64_decode(text.as_str()) {
                Ok(bytes) => Ok(bytes),
                Err(_) => Err(Error::new(ErrorKind::InvalidBase64, "invalid base64")),
            },
        }
    }

    /// The bytes of the first output of `res` that is called `output_name`.
    pub fn read_output(&self, res: &InvokeResponse, output_name: &str) -> (r: Result<
        Vec<u8>,
        Error,
    >)
        ensures
            agrees(r, output_bytes(*res, output_name@)),
    {
        let mut i: usize = 0;
        proof {
            output_position_bounds(res.outputs@, output_name@);
        }
        while i < res.outputs.len()
            invariant
                i <= res.outputs.len(),
                i <= output_position(res.outputs@, output_name@),
                output_position(res.outputs@, output_name@) <= res.outputs@.len(),
                output_position(res.outputs@, output_name@) < res.outputs@.len()
                    ==> res.outputs@[output_position(res.outputs@, output_name@)].name@
                    == output_name@,
                forall|k: int|
                    0 <= k < output_position(res.outputs@, output_name@) ==> res.outputs@[k].name@
                        != output_name@,
            decreases res.outputs.len() - i,
        {
            if same_text(res.outputs[i].name.as_str(), output_name) {
                return self.read_output_data(&res.outputs[i].data);
            }
            i += 1;
        }
        let mut detail = String::from_str("output ");
        detail.append(output_name);
        detail.append(" not found");
        Err(Error { kind: ErrorKind::OutputNotFound, detail })
    }
}

} // verus!
