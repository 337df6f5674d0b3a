use unicode_width::UnicodeWidthStr;
use vstd::prelude::*;
use vstd::utf8::encode_utf8;

verus! {

/// Display width of a text as the Unicode width tables give it, with characters of the
/// ambiguous category one column wide.
pub uninterp spec fn unicode_width_of(text: Seq<char>) -> nat;

/// Display width of a text as the Unicode width tables give it, with characters of the
/// ambiguous category two columns wide.
pub uninterp spec fn unicode_width_cjk_of(text: Seq<char>) -> nat;

/// Relies on `UnicodeWidthStr::width`: the width depends on the characters alone.
#[verifier::external_body]
fn str_unicode_width(text: &str) -> (r: usize)
    ensures
        r as nat == unicode_width_of(text@),
{
    UnicodeWidthStr::width(text)
}

/// Relies on `UnicodeWidthStr::width_cjk`: the width depends on the characters alone.
#[verifier::external_body]
fn str_unicode_width_cjk(text: &str) -> (r: usize)
    ensures
        r as nat == unicode_width_cjk_of(text@),
{
    UnicodeWidthStr::width_cjk(text)
}

/// A value that has a display width and a text.
pub trait Width {
    /// The text that the value is written as.
    spec fn spec_text(&self) -> Seq<char>;

    /// The number of columns that the text takes.
    spec fn spec_width(&self) -> nat;

    /// Get width of the value.
    fn width(&self) -> (r: usize)
        ensures
            r as nat == self.spec_width(),
    ;

    /// Append the text of the value to `out`.
    fn write_text(&self, out: &mut String)
        ensures
            final(out)@ == old(out)@ + self.spec_text(),
    ;
}

impl Width for str {
    open spec fn spec_text(&self) -> Seq<char> {
        self@
    }

    open spec fn spec_width(&self) -> nat {
        unicode_width_of(self@)
    }

    fn width(&self) -> (r: usize) {
        str_unicode_width(self)
    }

    fn write_text(&self, out: &mut String) {
        out.append(self);
    }
}

impl Width for String {
    open spec fn spec_text(&self) -> Seq<char> {
        self@
    }

    open spec fn spec_width(&self) -> nat {
        unicode_width_of(self@)
    }

    fn width(&self) -> (r: usize) {
        str_unicode_width(self.as_str())
    }

    fn write_text(&self, out: &mut String) {
        out.append(self.as_str());
    }
}

impl<'a, X: Width + ?Sized> Width for &'a X {
    open spec fn spec_text(&self) -> Seq<char> {
        (**self).spec_text()
    }

    open spec fn spec_width(&self) -> nat {
        (**self).spec_width()
    }

    fn width(&self) -> (r: usize) {
        (**self).width()
    }

    fn write_text(&self, out: &mut String) {
        (**self).write_text(out)
    }
}

/// Treat the Unicode display width of the inner value's text as width.
#[derive(Debug, Clone, Copy, PartialEq, Eq)]
pub struct UnicodeWidth<Inner>(pub Inner);

impl<Inner> UnicodeWidth<Inner> {
    /// Extract the inner value.
    pub fn into_inner(self) -> (r: Inner)
        ensures
            r == self.0,
    {
        self.0
    }

    /// Get reference to inner value.
    pub fn as_inner(&self) -> (r: &Inner)
        ensures
            *r == self.0,
    {
        &self.0
    }
}

/// Treat the CJK-aware Unicode display width of the inner value's text as width.
#[derive(Debug, Clone, Copy, PartialEq, Eq)]
pub struct UnicodeWidthCjk<Inner>(pub Inner);

impl<Inner> UnicodeWidthCjk<Inner> {
    /// Extract the inner value.
    pub fn into_inner(self) -> (r: Inner)
        ensures
            r == self.0,
    {
        self.0
    }

    /// Get reference to inner value.
    pub fn as_inner(&self) -> (r: &Inner)
        ensures
            *r == self.0,
    {
        &self.0
    }
}

/// Treat the number of characters of the inner value's text as width.
#[derive(Debug, Clone, Copy, PartialEq, Eq)]
pub struct CharCount<Inner>(pub Inner);

impl<Inner> CharCount<Inner> {
    /// Extract the inner value.
    pub fn into_inner(self) -> (r: Inner)
        ensures
            r == self.0,
    {
        self.0
    }

    /// Get reference to inner value.
    pub fn as_inner(&self) -> (r: &Inner)
        ensures
            *r == self.0,
    {
        &self.0
    }
}

/// Treat the length in UTF-8 bytes of the inner value's text as width.
#[derive(Debug, Clone, Copy, PartialEq, Eq)]
pub struct Len<Inner>(pub Inner);

impl<Inner> Len<Inner> {
    /// Extract the inner value.
    pub fn into_inner(self) -> (r: Inner)
        ensures
            r == self.0,
    {
        self.0
    }

    /// Get reference to inner value.
    pub fn as_inner(&self) -> (r: &Inner)
        ensures
            *r == self.0,
    {
        &self.0
    }
}

/// The text of a value, in a string of its own.
pub(crate) fn text_of<X: Width + ?Sized>(value: &X) -> (r: String)
    ensures
        r@ == value.spec_text(),
{
    let mut text = String::new();
    value.write_text(&mut text);
    proof {
        assert(text@ =~= value.spec_text());
    }
    text
}

impl<Inner: Width> Width for UnicodeWidth<Inner> {
    open spec fn spec_text(&self) -> Seq<char> {
        self.0.spec_text()
    }

    open spec fn spec_width(&self) -> nat {
        unicode_width_of(self.0.spec_text())
    }

    fn width(&self) -> (r: usize) {
        let text = text_of(&self.0);
        str_unicode_width(text.as_str())
    }

    fn write_text(&self, out: &mut String) {
        self.0.write_text(out)
    }
}

impl<Inner: Width> Width for CharCount<Inner> {
    open spec fn spec_text(&self) -> Seq<char> {
        self.0.spec_text()
    }

    open spec fn spec_width(&self) -> nat {
        self.0.spec_text().len()
    }

    fn width(&self) -> (r: usize) {
        let text = text_of(&self.0);
        text.as_str().unicode_len()
    }

    fn write_text(&self, out: &mut String) {
        self.0.write_text(out)
    }
}

impl<Inner: Width> Width for UnicodeWidthCjk<Inner> {
    open spec fn spec_text(&self) -> Seq<char> {
        self.0.spec_text()
    }

    open spec fn spec_width(&self) -> nat {
        unicode_width_cjk_of(self.0.spec_text())
    }

    fn width(&self) -> (r: usize) {
        let text = text_of(&self.0);
        str_unicode_width_cjk(text.as_str())
    }

    fn write_text(&self, out: &mut String) {
        self.0.write_text(out)
    }
}

impl<Inner: Width> Width for Len<Inner> {
    open spec fn spec_text(&self) -> Seq<char> {
        self.0.spec_text()
    }

    open spec fn spec_width(&self) -> nat {
        encode_utf8(self.0.spec_text()).len()
    }

    fn width(&self) -> (r: usize) {
        let text = text_of(&self.0);
        text.as_str().as_bytes().len()
    }

    fn write_text(&self, out: &mut String) {
        self.0.write_text(out)
    }
}

} // verus!
