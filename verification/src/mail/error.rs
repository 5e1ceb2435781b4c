use vstd::prelude::*;

verus! {

/// What went wrong while talking to the bridge. Each variant carries the
/// text of the underlying error.
#[derive(Debug)]
pub enum MailError {
    Imap(String),
    Smtp(String),
    Io(String),
    Utf8(String),
    Parse(String),
}

/// The text a `MailError` is shown as.
pub open spec fn mail_error_text(e: MailError) -> Seq<char> {
    match e {
        MailError::Imap(t) => "IMAP error: "@ + t@,
        MailError::Smtp(t) => "SMTP error: "@ + t@,
        MailError::Io(t) => "IO error: "@ + t@,
        MailError::Utf8(t) => "UTF-8 error: "@ + t@,
        MailError::Parse(t) => "Parse error: "@ + t@,
    }
}

impl MailError {
    /// The text this error is shown as.
    pub fn message(&self) -> (r: String)
        ensures
            r@ == mail_error_text(*self),
    {
        let (prefix, detail) = match self {
            MailError::Imap(t) => ("IMAP error: ", t),
            MailError::Smtp(t) => ("SMTP error: ", t),
            MailError::Io(t) => ("IO error: ", t),
            MailError::Utf8(t) => ("UTF-8 error: ", t),
            MailError::Parse(t) => ("Parse error: ", t),
        };
        let mut out = crate::text::to_owned_string(prefix);
        out.append(detail.as_str());
        out
    }
}

} // verus!
