//! Styled text: colours, padding, fonts, and text before and after measuring.

use vstd::prelude::*;
use crate::draw::{Alignment, Context, DrawOpView, EllipsizeMode, Layout, LayoutView, pango_units, to_pango_units};

verus! {

/// The number of steps into which a colour channel is divided: a channel
/// holding `n` has the intensity `n / 256`.
pub const CHANNEL_STEPS: u32 = 256;

/// A colour of three channels, each a number of steps out of
/// [`CHANNEL_STEPS`].
#[derive(Clone, Copy, Debug, PartialEq, Eq, Structural)]
pub struct Color {
    pub red: u8,
    pub green: u8,
    pub blue: u8,
}

/// Why two characters of a colour are no byte in hexadecimal.
#[derive(Clone, Copy, Debug, PartialEq, Eq, Structural)]
pub enum ParseHexError {
    /// The text ends before the second character of the pair.
    TooShort,
    /// One of the two characters is no hexadecimal digit.
    InvalidDigit,
}

/// The channel of a colour that could not be read, and why.
#[derive(Clone, Copy, Debug, PartialEq, Eq, Structural)]
pub enum ParseColorError {
    Red(ParseHexError),
    Green(ParseHexError),
    Blue(ParseHexError),
}

/// The value of `c` as a hexadecimal digit, if it is one.
pub open spec fn hex_digit_value(c: char) -> Option<int> {
    if '0' <= c <= '9' {
        Some(c as int - '0' as int)
    } else if 'a' <= c <= 'f' {
        Some(c as int - 'a' as int + 10)
    } else if 'A' <= c <= 'F' {
        Some(c as int - 'A' as int + 10)
    } else {
        None
    }
}

/// The byte written by the two characters of `s` that start at `at`.
pub open spec fn hex_pair_value(s: Seq<char>, at: int) -> Result<u8, ParseHexError> {
    if s.len() < at + 2 {
        Err(ParseHexError::TooShort)
    } else {
        match (hex_digit_value(s[at]), hex_digit_value(s[at + 1])) {
            (Some(high), Some(low)) => Ok((16 * high + low) as u8),
            _ => Err(ParseHexError::InvalidDigit),
        }
    }
}

/// The colour written by `s`: red, green and blue as one hexadecimal pair
/// each, in this order. Whatever follows the sixth character is not read.
pub open spec fn parse_color(s: Seq<char>) -> Result<Color, ParseColorError> {
    match hex_pair_value(s, 0) {
        Err(e) => Err(ParseColorError::Red(e)),
        Ok(red) => match hex_pair_value(s, 2) {
            Err(e) => Err(ParseColorError::Green(e)),
            Ok(green) => match hex_pair_value(s, 4) {
                Err(e) => Err(ParseColorError::Blue(e)),
                Ok(blue) => Ok(Color { red, green, blue }),
            },
        },
    }
}

/// Reads one hexadecimal digit.
fn hex_digit(c: char) -> (r: Option<u8>)
    ensures
        match r {
            Some(v) => hex_digit_value(c) == Some(v as int) && v < 16,
            None => hex_digit_value(c).is_none(),
        },
{
    if '0' <= c && c <= '9' {
        Some((c as u32 - '0' as u32) as u8)
    } else if 'a' <= c && c <= 'f' {
        Some((c as u32 - 'a' as u32 + 10) as u8)
    } else if 'A' <= c && c <= 'F' {
        Some((c as u32 - 'A' as u32 + 10) as u8)
    } else {
        None
    }
}

/// Reads the hexadecimal pair of `s` that starts at the character `at`.
fn hex_pair(s: &str, len: usize, at: usize) -> (r: Result<u8, ParseHexError>)
    requires
        len == s@.len(),
        at <= 4,
    ensures
        r == hex_pair_value(s@, at as int),
{
    if len < 2 || len - 2 < at {
        return Err(ParseHexError::TooShort);
    }
    match (hex_digit(s.get_char(at)), hex_digit(s.get_char(at + 1))) {
        (Some(high), Some(low)) => Ok(16 * high + low),
        _ => Err(ParseHexError::InvalidDigit),
    }
}

impl Color {
    /// Reads a colour from six hexadecimal digits, two for each of red, green
    /// and blue. The first pair that is no hexadecimal byte gives the error,
    /// under the name of its channel.
    pub fn parse(s: &str) -> (r: Result<Color, ParseColorError>)
        ensures
            r == parse_color(s@),
    {
        let len = s.unicode_len();
        let red = match hex_pair(s, len, 0) {
            Ok(v) => v,
            Err(e) => {
                return Err(ParseColorError::Red(e));
            },
        };
        let green = match hex_pair(s, len, 2) {
            Ok(v) => v,
            Err(e) => {
                return Err(ParseColorError::Green(e));
            },
        };
        let blue = match hex_pair(s, len, 4) {
            Ok(v) => v,
            Err(e) => {
                return Err(ParseColorError::Blue(e));
            },
        };
        Ok(Color { red, green, blue })
    }
}

impl Color {
    /// Makes this colour the colour of what `cr` draws next.
    pub fn apply_to_context(&self, cr: &mut Context)
        ensures
            final(cr)@ == old(cr)@.push(DrawOpView::SetSourceRgb { color: *self }),
    {
        cr.set_source_rgb(*self);
    }
}

impl Default for Color {
    /// Black.
    fn default() -> (r: Color)
        ensures
            r == (Color { red: 0, green: 0, blue: 0 }),
    {
        Color { red: 0, green: 0, blue: 0 }
    }
}

impl core::str::FromStr for Color {
    type Err = ParseColorError;

    fn from_str(s: &str) -> (r: Result<Color, ParseColorError>)
        ensures
            r == parse_color(s@),
    {
        Color::parse(s)
    }
}

/// The margins round a text, in pixels.
#[derive(Clone, Copy, Debug, PartialEq, Eq, Structural)]
pub struct Padding {
    pub left: u32,
    pub right: u32,
    pub top: u32,
    pub bottom: u32,
}

impl Padding {
    pub fn new(left: u32, right: u32, top: u32, bottom: u32) -> (r: Padding)
        ensures
            r == (Padding { left, right, top, bottom }),
    {
        Padding { left, right, top, bottom }
    }

    /// The margins left and right together.
    pub open spec fn horizontal(self) -> nat {
        (self.left + self.right) as nat
    }

    /// The margins above and below together.
    pub open spec fn vertical(self) -> nat {
        (self.top + self.bottom) as nat
    }
}

/// A font, named by its description: a family and a size, as in
/// `"SourceCodePro 21"`.
#[derive(Debug)]
pub struct Font {
    name: String,
}

impl View for Font {
    type V = Seq<char>;

    /// The description the font was made from.
    closed spec fn view(&self) -> Seq<char> {
        self.name@
    }
}

impl Font {
    pub fn new(name: &str) -> (r: Font)
        ensures
            r@ == name@,
    {
        Font { name: name.to_owned() }
    }

    /// The description the font was made from.
    pub fn name(&self) -> (r: &str)
        ensures
            r@ == self@,
    {
        self.name.as_str()
    }
}

impl Clone for Font {
    fn clone(&self) -> (r: Font)
        ensures
            r == *self,
    {
        Font { name: self.name.clone() }
    }
}

impl PartialEq for Font {
    fn eq(&self, other: &Font) -> (r: bool) {
        self.name == other.name
    }
}

impl vstd::std_specs::cmp::PartialEqSpecImpl for Font {
    open spec fn obeys_eq_spec() -> bool {
        true
    }

    open spec fn eq_spec(&self, other: &Font) -> bool {
        self@ == other@
    }
}

/// How a text is drawn: its font, its colours and the margins round it.
#[derive(Debug)]
pub struct Attributes {
    pub font: Font,
    pub fg_color: Color,
    /// The colour behind the text; black where there is none.
    pub bg_color: Option<Color>,
    pub padding: Padding,
}

/// What [`Attributes`] hold.
pub struct AttributesView {
    pub font: Seq<char>,
    pub fg_color: Color,
    pub bg_color: Option<Color>,
    pub padding: Padding,
}

impl View for Attributes {
    type V = AttributesView;

    open spec fn view(&self) -> AttributesView {
        AttributesView {
            font: self.font@,
            fg_color: self.fg_color,
            bg_color: self.bg_color,
            padding: self.padding,
        }
    }
}

impl AttributesView {
    /// The colour behind the text.
    pub open spec fn background(self) -> Color {
        match self.bg_color {
            Some(color) => color,
            None => Color { red: 0, green: 0, blue: 0 },
        }
    }
}

impl Clone for Attributes {
    fn clone(&self) -> (r: Attributes)
        ensures
            r == *self,
    {
        Attributes {
            font: self.font.clone(),
            fg_color: self.fg_color,
            bg_color: self.bg_color,
            padding: self.padding,
        }
    }
}

impl PartialEq for Attributes {
    fn eq(&self, other: &Attributes) -> (r: bool) {
        self.font == other.font && self.fg_color == other.fg_color && self.bg_color
            == other.bg_color && self.padding == other.padding
    }
}

impl vstd::std_specs::cmp::PartialEqSpecImpl for Attributes {
    open spec fn obeys_eq_spec() -> bool {
        true
    }

    open spec fn eq_spec(&self, other: &Attributes) -> bool {
        self@ == other@
    }
}

/// A text to be shown, not yet measured.
#[derive(Debug)]
pub struct Text {
    pub attr: Attributes,
    pub text: String,
    /// Whether the text takes a share of the width its row leaves free, in
    /// place of the width of what it says.
    pub stretch: bool,
}

/// What a [`Text`] holds.
pub struct TextView {
    pub attr: AttributesView,
    pub text: Seq<char>,
    pub stretch: bool,
}

impl View for Text {
    type V = TextView;

    open spec fn view(&self) -> TextView {
        TextView { attr: self.attr@, text: self.text@, stretch: self.stretch }
    }
}

/// A text with its rectangle, in pixels of the surface.
#[derive(Debug, PartialEq)]
pub struct ComputedText {
    pub attr: Attributes,
    pub text: String,
    pub stretch: bool,
    pub x: u128,
    pub y: u64,
    pub width: u64,
    pub height: u64,
}

/// What a [`ComputedText`] holds.
pub struct ComputedTextView {
    pub attr: AttributesView,
    pub text: Seq<char>,
    pub stretch: bool,
    pub x: nat,
    pub y: nat,
    pub width: nat,
    pub height: nat,
}

impl View for ComputedText {
    type V = ComputedTextView;

    open spec fn view(&self) -> ComputedTextView {
        ComputedTextView {
            attr: self.attr@,
            text: self.text@,
            stretch: self.stretch,
            x: self.x as nat,
            y: self.y as nat,
            width: self.width as nat,
            height: self.height as nat,
        }
    }
}

impl TextView {
    /// What the shaping engine is asked to measure: the text in its font,
    /// free to take the room it needs.
    pub open spec fn layout(self) -> LayoutView {
        LayoutView {
            text: self.text,
            font: self.attr.font,
            ellipsize: EllipsizeMode::Never,
            width: None,
            height: None,
            alignment: Alignment::Left,
        }
    }

    /// The text at the origin, in the rectangle of what it says, measured as
    /// `text_width` by `text_height`, and its margins.
    pub open spec fn computed(self, text_width: nat, text_height: nat) -> ComputedTextView {
        ComputedTextView {
            attr: self.attr,
            text: self.text,
            stretch: self.stretch,
            x: 0,
            y: 0,
            width: text_width + self.attr.padding.horizontal(),
            height: text_height + self.attr.padding.vertical(),
        }
    }
}

impl ComputedTextView {
    /// The text that was measured.
    pub open spec fn request(self) -> TextView {
        TextView { attr: self.attr, text: self.text, stretch: self.stretch }
    }

    /// The width left to the text between its margins.
    pub open spec fn text_width(self) -> nat {
        if self.width >= self.attr.padding.horizontal() {
            (self.width - self.attr.padding.horizontal()) as nat
        } else {
            0
        }
    }

    /// The height left to the text between its margins.
    pub open spec fn text_height(self) -> nat {
        if self.height >= self.attr.padding.vertical() {
            (self.height - self.attr.padding.vertical()) as nat
        } else {
            0
        }
    }

    /// The text as it is set when drawn: cut at its end to the room between
    /// the margins, and centred in it if it stretches.
    pub open spec fn layout(self) -> LayoutView {
        LayoutView {
            text: self.text,
            font: self.attr.font,
            ellipsize: EllipsizeMode::End,
            width: Some(pango_units(self.text_width())),
            height: Some(pango_units(self.text_height())),
            alignment: if self.stretch {
                Alignment::Center
            } else {
                Alignment::Left
            },
        }
    }

    /// What painting the text asks of a new context, in order: the
    /// rectangle filled with the background, then the text in the foreground
    /// colour, inside the margins.
    pub open spec fn drawing(self) -> Seq<DrawOpView> {
        seq![
            DrawOpView::Translate { tx: self.x, ty: self.y },
            DrawOpView::SetSourceRgb { color: self.attr.background() },
            DrawOpView::Rectangle { x: 0, y: 0, width: self.width, height: self.height },
            DrawOpView::Fill,
            DrawOpView::SetSourceRgb { color: self.attr.fg_color },
            DrawOpView::Translate {
                tx: self.attr.padding.left as nat,
                ty: self.attr.padding.top as nat,
            },
            DrawOpView::ShowLayout { layout: self.layout() },
        ]
    }
}

impl Clone for Text {
    fn clone(&self) -> (r: Text)
        ensures
            r == *self,
    {
        Text { attr: self.attr.clone(), text: self.text.clone(), stretch: self.stretch }
    }
}

impl PartialEq for Text {
    fn eq(&self, other: &Text) -> (r: bool) {
        self.attr == other.attr && self.text == other.text && self.stretch == other.stretch
    }
}

impl vstd::std_specs::cmp::PartialEqSpecImpl for Text {
    open spec fn obeys_eq_spec() -> bool {
        true
    }

    open spec fn eq_spec(&self, other: &Text) -> bool {
        self@ == other@
    }
}

/// A text equals a computed text when the latter was measured from the
/// former: when attributes, text and stretch agree.
impl PartialEq<ComputedText> for Text {
    fn eq(&self, other: &ComputedText) -> (r: bool) {
        self.attr == other.attr && self.text == other.text && self.stretch == other.stretch
    }
}

impl vstd::std_specs::cmp::PartialEqSpecImpl<ComputedText> for Text {
    open spec fn obeys_eq_spec() -> bool {
        true
    }

    open spec fn eq_spec(&self, other: &ComputedText) -> bool {
        self@ == other@.request()
    }
}

impl Text {
    /// What the shaping engine is asked to measure for this text.
    pub fn layout(&self) -> (r: Layout)
        ensures
            r@ == self@.layout(),
    {
        Layout {
            text: self.text.clone(),
            font: self.attr.font.clone(),
            ellipsize: EllipsizeMode::Never,
            width: None,
            height: None,
            alignment: Alignment::Left,
        }
    }

    /// Gives the text its rectangle, from the size that
    /// [`layout`](Text::layout) was measured to have in pixels. The rectangle
    /// is at the origin: the row the text stands in places it.
    pub fn compute(self, text_width: u32, text_height: u32) -> (r: ComputedText)
        ensures
            r@ == self@.computed(text_width as nat, text_height as nat),
    {
        let width = text_width as u64 + self.attr.padding.left as u64
            + self.attr.padding.right as u64;
        let height = text_height as u64 + self.attr.padding.top as u64
            + self.attr.padding.bottom as u64;
        ComputedText {
            attr: self.attr,
            text: self.text,
            stretch: self.stretch,
            x: 0,
            y: 0,
            width,
            height,
        }
    }
}

impl Clone for ComputedText {
    fn clone(&self) -> (r: ComputedText)
        ensures
            r == *self,
    {
        ComputedText {
            attr: self.attr.clone(),
            text: self.text.clone(),
            stretch: self.stretch,
            x: self.x,
            y: self.y,
            width: self.width,
            height: self.height,
        }
    }
}

impl ComputedText {
    /// The text as it is set when drawn.
    pub fn layout(&self) -> (r: Layout)
        ensures
            r@ == self@.layout(),
    {
        let across = self.attr.padding.left as u64 + self.attr.padding.right as u64;
        let down = self.attr.padding.top as u64 + self.attr.padding.bottom as u64;
        let text_width = if self.width >= across {
            self.width - across
        } else {
            0
        };
        let text_height = if self.height >= down {
            self.height - down
        } else {
            0
        };
        Layout {
            text: self.text.clone(),
            font: self.attr.font.clone(),
            ellipsize: EllipsizeMode::End,
            width: Some(to_pango_units(text_width)),
            height: Some(to_pango_units(text_height)),
            alignment: if self.stretch {
                Alignment::Center
            } else {
                Alignment::Left
            },
        }
    }

    /// Paints the text on a context of its own, which starts at the
    /// surface's origin whatever was drawn before.
    pub fn render(&self) -> (cr: Context)
        ensures
            cr@ == self@.drawing(),
    {
        let mut cr = Context::new();
        let layout = self.layout();
        cr.translate(self.x, self.y as u128);
        let bg_color = match self.attr.bg_color {
            Some(color) => color,
            None => Color::default(),
        };
        bg_color.apply_to_context(&mut cr);
        cr.rectangle(0, 0, self.width, self.height);
        cr.fill();
        self.attr.fg_color.apply_to_context(&mut cr);
        cr.translate(self.attr.padding.left as u128, self.attr.padding.top as u128);
        cr.show_layout(layout);
        assert(cr@ =~= self@.drawing());
        cr
    }
}

/// What the texts of `texts` hold, one for one.
pub open spec fn text_views(texts: Seq<Text>) -> Seq<TextView> {
    texts.map_values(|text: Text| text@)
}

/// What the computed texts of `row` hold, one for one.
pub open spec fn computed_views(row: Seq<ComputedText>) -> Seq<ComputedTextView> {
    row.map_values(|entry: ComputedText| entry@)
}

/// Whether the two characters of `s` that start at `at` are hexadecimal
/// digits.
pub open spec fn is_hex_pair(s: Seq<char>, at: int) -> bool {
    &&& s.len() >= at + 2
    &&& hex_digit_value(s[at]).is_some()
    &&& hex_digit_value(s[at + 1]).is_some()
}

/// Whether the pair of `channel`, counted from red as 0, is one of
/// hexadecimal digits.
pub open spec fn channel_is_hex(s: Seq<char>, channel: int) -> bool {
    is_hex_pair(s, 2 * channel)
}

/// The number that the hexadecimal digits at `at` and behind it write.
pub open spec fn hex_pair_number(s: Seq<char>, at: int) -> int {
    16 * hex_digit_value(s[at]).unwrap() + hex_digit_value(s[at + 1]).unwrap()
}

/// The error of a channel, counted from red as 0.
pub open spec fn channel_error(channel: int, error: ParseHexError) -> ParseColorError {
    if channel == 0 {
        ParseColorError::Red(error)
    } else if channel == 1 {
        ParseColorError::Green(error)
    } else {
        ParseColorError::Blue(error)
    }
}

/// Six hexadecimal digits are a colour, and each of its channels holds the
/// number that its pair of digits writes: so many steps out of
/// [`CHANNEL_STEPS`].
pub proof fn lemma_hex_digits_are_a_color(s: Seq<char>)
    requires
        s.len() == 6,
        forall|i: int| 0 <= i < 6 ==> hex_digit_value(#[trigger] s[i]).is_some(),
    ensures
        parse_color(s) matches Ok(color) && {
            &&& color.red == hex_pair_number(s, 0)
            &&& color.green == hex_pair_number(s, 2)
            &&& color.blue == hex_pair_number(s, 4)
        },
        0 <= hex_pair_number(s, 0) < CHANNEL_STEPS,
        0 <= hex_pair_number(s, 2) < CHANNEL_STEPS,
        0 <= hex_pair_number(s, 4) < CHANNEL_STEPS,
{
    assert(hex_digit_value(s[0]).is_some() && hex_digit_value(s[1]).is_some());
    assert(hex_digit_value(s[2]).is_some() && hex_digit_value(s[3]).is_some());
    assert(hex_digit_value(s[4]).is_some() && hex_digit_value(s[5]).is_some());
}

/// Where the pair of a channel is no hexadecimal byte and the pairs of the
/// channels before it are, reading the colour fails with that pair's error
/// under that channel's name.
pub proof fn lemma_malformed_pair_names_its_channel(s: Seq<char>, channel: int)
    requires
        0 <= channel < 3,
        forall|earlier: int| 0 <= earlier < channel ==> channel_is_hex(s, earlier),
        !channel_is_hex(s, channel),
    ensures
        hex_pair_value(s, 2 * channel) matches Err(error) && parse_color(s) == Err::<
            Color,
            ParseColorError,
        >(channel_error(channel, error)),
{
    if channel >= 1 {
        assert(channel_is_hex(s, 0));
    }
    if channel >= 2 {
        assert(channel_is_hex(s, 1));
    }
}

/// Reading a colour gives either all three channels or an error: the error
/// of the first channel whose pair is no hexadecimal byte.
pub proof fn lemma_parse_is_all_or_nothing(s: Seq<char>)
    ensures
        parse_color(s).is_ok() <==> is_hex_pair(s, 0) && is_hex_pair(s, 2) && is_hex_pair(s, 4),
{
}

/// Measuring a text sets its rectangle and nothing else: what it says, its
/// attributes and whether it stretches stay, and the text equals what was
/// computed from it.
pub proof fn lemma_measuring_keeps_the_request(text: TextView, text_width: nat, text_height: nat)
    ensures
        text.computed(text_width, text_height).request() == text,
        text.computed(text_width, text_height).x == 0,
        text.computed(text_width, text_height).y == 0,
{
}

/// What painting a computed text draws is the text it was computed from, in
/// that text's font and colours.
pub proof fn lemma_drawing_shows_the_request(entry: ComputedTextView)
    ensures
        entry.drawing().len() == 7,
        entry.drawing()[1] == (DrawOpView::SetSourceRgb { color: entry.attr.background() }),
        entry.drawing()[4] == (DrawOpView::SetSourceRgb { color: entry.attr.fg_color }),
        entry.drawing()[6] matches DrawOpView::ShowLayout { layout } && {
            &&& layout.text == entry.request().text
            &&& layout.font == entry.request().attr.font
        },
{
}

} // verus!
