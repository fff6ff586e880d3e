use vstd::prelude::*;
use base64::Engine;
use crate::state::{State, StateView, UiState};
use crate::state_level::LevelMetadata;

verus! {

/// `base64::DecodeError`, the reason a text is not valid base64.
#[verifier::external_type_specification]
#[verifier::external_body]
pub struct ExDecodeError(base64::DecodeError);

/// The bytes that the standard base64 alphabet with padding decodes a text
/// to, or `None` when the text is not valid base64.
pub uninterp spec fn standard_base64_decode(text: Seq<char>) -> Option<Seq<u8>>;

/// A character of the Unicode White_Space property.
pub open spec fn is_white_space(c: char) -> bool {
    let u = c as u32;
    ||| 0x9 <= u <= 0xd
    ||| u == 0x20
    ||| u == 0x85
    ||| u == 0xa0
    ||| u == 0x1680
    ||| 0x2000 <= u <= 0x200a
    ||| u == 0x2028
    ||| u == 0x2029
    ||| u == 0x202f
    ||| u == 0x205f
    ||| u == 0x3000
}

/// The text without its leading and trailing White_Space characters.
pub open spec fn trimmed(text: Seq<char>) -> Seq<char>
    decreases text.len(),
{
    if text.len() == 0 {
        text
    } else if is_white_space(text[0]) {
        trimmed(text.drop_first())
    } else if is_white_space(text.last()) {
        trimmed(text.drop_last())
    } else {
        text
    }
}

/// Trusted: `str::trim`, which removes the leading and trailing characters
/// of the Unicode White_Space property.
#[verifier::external_body]
pub(crate) fn trim_whitespace(text: &str) -> (r: &str)
    ensures
        r@ == trimmed(text@),
{
    text.trim()
}

/// Trusted: `base64::engine::general_purpose::STANDARD.decode` on the text's
/// bytes. It returns `Ok` with the decoded bytes exactly when the text is
/// valid base64, and what it returns depends on the text alone.
#[verifier::external_body]
fn base64_standard_decode(text: &str) -> (r: Result<Vec<u8>, base64::DecodeError>)
    ensures
        match r {
            Ok(v) => standard_base64_decode(text@) == Some(v@),
            Err(_) => standard_base64_decode(text@) is None,
        },
{
    base64::engine::general_purpose::STANDARD.decode(text)
}

/// The bytes an import text carries as base64, its surrounding whitespace
/// ignored; `None` when it is not base64.
pub fn decode_import_payload(text: &str) -> (r: Option<Vec<u8>>)
    ensures
        match r {
            Some(v) => standard_base64_decode(trimmed(text@)) == Some(v@),
            None => standard_base64_decode(trimmed(text@)) is None,
        },
{
    match base64_standard_decode(trim_whitespace(text)) {
        Ok(v) => Some(v),
        Err(_) => None,
    }
}

impl StateView {
    /// Finishing an import: a level that was read is loaded (see
    /// `after_import`) and the import window closed, with `emptied` as its
    /// text; a failure changes nothing.
    pub open spec fn after_complete_import(self, imported: Result<LevelMetadata, String>, emptied: String) -> StateView {
        match imported {
            Ok(m) => {
                let t = self.after_import(m);
                t.with_ui(UiState { show_import: false, import_text: emptied, ..t.ui })
            },
            Err(_) => self,
        }
    }
}

impl State {
    /// Finishes an import with the level read from the import text (as an
    /// archive or as JSON): on success the level is loaded and the import
    /// window closed and emptied; the error is handed back unchanged.
    pub fn complete_import_with(&mut self, imported: Result<LevelMetadata, String>) -> (r: Result<(), String>)
        requires
            old(self)@.timeline.length >= 1,
        ensures
            final(self)@ == old(self)@.after_complete_import(imported, final(self)@.ui.import_text),
            imported is Ok ==> final(self)@.ui.import_text@ == Seq::<char>::empty(),
            match imported {
                Ok(_) => r is Ok,
                Err(e) => r == Err::<(), String>(e),
            },
    {
        match imported {
            Ok(m) => {
                self.apply_imported_level_metadata(m);
                self.ui.show_import = false;
                self.ui.import_text = String::new();
                Ok(())
            },
            Err(e) => Err(e),
        }
    }
}

} // verus!
