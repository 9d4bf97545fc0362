//! What the error pages show.

use crate::error::{ErrorMessage, RejectionCauses};
use vstd::prelude::*;

verus! {

/// The template every error page is rendered with.
pub const ERROR_PAGE_TEMPLATE: &'static str = "error_page";

/// Whether `page` shows `code` and `message` with the two hints `first` and
/// `second`.
pub open spec fn shows(
    page: ErrorMessage,
    code: u16,
    message: Seq<char>,
    first: Seq<char>,
    second: Seq<char>,
) -> bool {
    &&& page.code == code
    &&& page.message@ == message
    &&& page.instructions@.len() == 2
    &&& page.instructions@[0]@ == first
    &&& page.instructions@[1]@ == second
}

/// The page behind `/error/incorrect-password`.
pub fn error_incorrect_password() -> (page: ErrorMessage)
    ensures
        shows(
            page,
            401,
            "Unauthorizer"@,
            "Pastikan password dan email sesuai"@,
            "Hubungi pihak pengembang untuk mengganti password"@,
        ),
{
    ErrorMessage {
        code: 401,
        message: "Unauthorizer",
        instructions: vec![
            "Pastikan password dan email sesuai",
            "Hubungi pihak pengembang untuk mengganti password",
        ],
    }
}

/// The page behind `/error/bad-request`.
pub fn error_400_page() -> (page: ErrorMessage)
    ensures
        shows(
            page,
            400,
            "Bad Request"@,
            "Pastikan input sudah benar"@,
            "Hubungi pihak pengembang"@,
        ),
{
    ErrorMessage {
        code: 400,
        message: "Bad Request",
        instructions: vec!["Pastikan input sudah benar", "Hubungi pihak pengembang"],
    }
}

/// The page behind `/error/not-found`.
pub fn error_404_page() -> (page: ErrorMessage)
    ensures
        shows(
            page,
            404,
            "Not Found"@,
            "Pastikan input sudah benar"@,
            "Hubungi pihak pengembang"@,
        ),
{
    ErrorMessage {
        code: 404,
        message: "Not Found",
        instructions: vec!["Pastikan input sudah benar", "Hubungi pihak pengembang"],
    }
}

/// The page behind `/error/server-error`.
pub fn error_500_page() -> (page: ErrorMessage)
    ensures
        shows(
            page,
            500,
            "Internal Server Error"@,
            "Coba kembali dan refresh halaman"@,
            "Hubungi pihak pengembang"@,
        ),
{
    ErrorMessage {
        code: 500,
        message: "Internal Server Error",
        instructions: vec!["Coba kembali dan refresh halaman", "Hubungi pihak pengembang"],
    }
}

/// The page behind `/error/email-taken`.
pub fn error_registering_existing_user_page() -> (page: ErrorMessage)
    ensures
        shows(
            page,
            409,
            "Conflict"@,
            "Coba gunakan email lain"@,
            "Hubungi pihak pengembang"@,
        ),
{
    ErrorMessage {
        code: 409,
        message: "Conflict",
        instructions: vec!["Coba gunakan email lain", "Hubungi pihak pengembang"],
    }
}

/// The message that answers a rejected request as data instead of a
/// redirect: a conflict for an address that is already taken, a server
/// error for everything else.
pub fn handle_rejection(err: RejectionCauses) -> (answer: ErrorMessage)
    ensures
        answer.instructions@.len() == 1,
        answer.instructions@[0]@ == "some error"@,
        err.existing_user ==> answer.code == 409 && answer.message@ == "Email already taken"@,
        !err.existing_user ==> answer.code == 500 && answer.message@ == "UNHANDLED_REJECTION"@,
{
    let code: u16;
    let message: &'static str;
    if err.existing_user {
        code = 409;
        message = "Email already taken";
    } else {
        code = 500;
        message = "UNHANDLED_REJECTION";
    }
    ErrorMessage { code, message, instructions: vec!["some error"] }
}

} // verus!
