//! The text waiting to be translated, and the markers that stand in for it.
use vstd::prelude::*;

verus! {

/// The text currently being translated, read by the translate window's
/// content after it is told of new text.
pub struct StringWrapper(pub String);

impl StringWrapper {
    /// An empty buffer.
    pub fn new() -> (r: StringWrapper)
        ensures
            r.0@ == Seq::<char>::empty(),
    {
        StringWrapper(String::new())
    }

    /// Replaces the whole buffer with `text`.
    pub fn replace(&mut self, text: &str)
        ensures
            final(self).0@ == text@,
    {
        self.0 = text.to_owned();
    }
}

/// The text that asks the translate window for manual input.
pub open spec fn input_marker() -> Seq<char> {
    "[INPUT_TRANSLATE_FROM_TRAY]"@
}

/// The text that tells the translate window to translate a captured image.
pub open spec fn image_marker() -> Seq<char> {
    "[IMAGE_TRANSLATE]"@
}

/// The manual input marker as a string.
pub fn input_marker_string() -> (r: String)
    ensures
        r@ == input_marker(),
{
    "[INPUT_TRANSLATE_FROM_TRAY]".to_owned()
}

/// The image translation marker as a string.
pub fn image_marker_string() -> (r: String)
    ensures
        r@ == image_marker(),
{
    "[IMAGE_TRANSLATE]".to_owned()
}

} // verus!
