use vstd::prelude::*;
use vstd::string::StringExecFns;
use crate::utils::app_error::{CREATED, INTERNAL_SERVER_ERROR};
use crate::utils::text::{decimal, push_decimal};

verus! {

/// The answer of the greeting endpoint. The body is a JSON object with the
/// one field `message`.
#[derive(Debug, PartialEq, Eq)]
pub struct Greeting {
    pub status: u16,
    /// What the `Content-Length` header says.
    pub content_length: u64,
    pub message: String,
}

/// Answers a greeting: the number zero is greeted, any other number is told
/// of an error.
pub fn hello(num: i32) -> (r: Greeting)
    ensures
        num == 0 ==> r.status == CREATED && r.content_length == 26 && r.message@
            == "Hello World!"@,
        num != 0 ==> r.status == INTERNAL_SERVER_ERROR && r.content_length == 20 && r.message@
            == "Error during creation"@,
{
    if num == 0 {
        Greeting { status: CREATED, content_length: 26, message: "Hello World!".to_owned() }
    } else {
        Greeting {
            status: INTERNAL_SERVER_ERROR,
            content_length: 20,
            message: "Error during creation".to_owned(),
        }
    }
}

/// What an upload is answered with.
pub open spec fn upload_summary(field: Option<(Seq<char>, usize)>) -> Seq<char> {
    match field {
        Some((name, size)) => name + " : "@ + decimal(size as nat) + " bytes"@,
        None => "No field found in multipart data"@,
    }
}

/// Answers an upload with the name of its first field and the number of
/// bytes in it, or says that there was no field.
pub fn upload(field: Option<(&str, usize)>) -> (r: String)
    ensures
        r@ == upload_summary(
            match field {
                Some((name, size)) => Some((name@, size)),
                None => None,
            },
        ),
{
    match field {
        Some((name, size)) => {
            let mut out = name.to_owned();
            out.append(" : ");
            push_decimal(&mut out, size as u64);
            out.append(" bytes");
            out
        },
        None => "No field found in multipart data".to_owned(),
    }
}

} // verus!
