//! Chat messages made of styled components, built step by step.

use vstd::prelude::*;

verus! {

/// A text colour: one of the named colours, or a custom `#rrggbb` value.
#[derive(Debug)]
pub enum Color {
    Black,
    DarkBlue,
    DarkGreen,
    DarkAqua,
    DarkRed,
    DarkPurple,
    Gold,
    Gray,
    DarkGray,
    Blue,
    Green,
    Aqua,
    Red,
    LighPurple,
    Yellow,
    White,
    Reset,
    Custom(String),
}

/// The text a colour is written as on the wire.
pub open spec fn color_text(c: Color) -> Seq<char> {
    match c {
        Color::Black => "Black"@,
        Color::DarkBlue => "DarkBlue"@,
        Color::DarkGreen => "DarkGreen"@,
        Color::DarkAqua => "DarkAqua"@,
        Color::DarkRed => "DarkRed"@,
        Color::DarkPurple => "DarkPurple"@,
        Color::Gold => "Gold"@,
        Color::Gray => "Gray"@,
        Color::DarkGray => "DarkGray"@,
        Color::Blue => "Blue"@,
        Color::Green => "Green"@,
        Color::Aqua => "Aqua"@,
        Color::Red => "Red"@,
        Color::LighPurple => "LighPurple"@,
        Color::Yellow => "Yellow"@,
        Color::White => "White"@,
        Color::Reset => "Reset"@,
        Color::Custom(hex) => hex@,
    }
}

impl Color {
    /// The wire text of this colour: the variant's name, or the custom value.
    pub fn text(&self) -> (r: String)
        ensures
            r@ == color_text(*self),
    {
        match self {
            Color::Black => String::from_str("Black"),
            Color::DarkBlue => String::from_str("DarkBlue"),
            Color::DarkGreen => String::from_str("DarkGreen"),
            Color::DarkAqua => String::from_str("DarkAqua"),
            Color::DarkRed => String::from_str("DarkRed"),
            Color::DarkPurple => String::from_str("DarkPurple"),
            Color::Gold => String::from_str("Gold"),
            Color::Gray => String::from_str("Gray"),
            Color::DarkGray => String::from_str("DarkGray"),
            Color::Blue => String::from_str("Blue"),
            Color::Green => String::from_str("Green"),
            Color::Aqua => String::from_str("Aqua"),
            Color::Red => String::from_str("Red"),
            Color::LighPurple => String::from_str("LighPurple"),
            Color::Yellow => String::from_str("Yellow"),
            Color::White => String::from_str("White"),
            Color::Reset => String::from_str("Reset"),
            Color::Custom(hex) => hex.clone(),
        }
    }
}

/// Text decorations of one component.
#[derive(Clone, Copy, Debug, PartialEq, Eq, Structural)]
pub struct Modifiers {
    pub bold: bool,
    pub italic: bool,
    pub underlined: bool,
    pub strikethrough: bool,
    pub obfuscated: bool,
}

/// One run of text with its optional style.
#[derive(Debug)]
pub struct MessageComponent {
    pub text: String,
    pub color: Option<Color>,
    pub font: Option<String>,
    pub modifiers: Option<Modifiers>,
}

/// A component that carries `text` and no style.
pub open spec fn plain(c: MessageComponent, text: Seq<char>) -> bool {
    &&& c.text@ == text
    &&& c.color is None
    &&& c.font is None
    &&& c.modifiers is None
}

/// A message under construction: the components closed so far, in order.
pub struct MessageBuilder {
    message: Vec<MessageComponent>,
}

impl View for MessageBuilder {
    type V = Seq<MessageComponent>;

    closed spec fn view(&self) -> Seq<MessageComponent> {
        self.message@
    }
}

/// A component being styled, and the message it will be appended to.
pub struct MessageComponentBuilder {
    message: MessageBuilder,
    component: MessageComponent,
}

impl MessageComponentBuilder {
    /// The components closed before this one.
    pub closed spec fn parts(&self) -> Seq<MessageComponent> {
        self.message@
    }

    /// The component being styled.
    pub closed spec fn current(&self) -> MessageComponent {
        self.component
    }
}

impl MessageBuilder {
    /// An empty message.
    pub fn new() -> (r: MessageBuilder)
        ensures
            r@ == Seq::<MessageComponent>::empty(),
    {
        MessageBuilder { message: Vec::new() }
    }

    /// Starts a new unstyled component holding `text`.
    pub fn component(self, text: String) -> (r: MessageComponentBuilder)
        ensures
            r.parts() == self@,
            plain(r.current(), text@),
    {
        MessageComponentBuilder {
            message: self,
            component: MessageComponent { text, color: None, font: None, modifiers: None },
        }
    }

    /// Appends an unstyled component holding a single newline.
    pub fn line_break(self) -> (r: MessageBuilder)
        ensures
            r@.len() == self@.len() + 1,
            r@ == self@.push(r@.last()),
            plain(r@.last(), seq!['\n']),
    {
        let nl = String::from_str("\n");
        proof {
            reveal_strlit("\n");
        }
        assert(nl@ =~= seq!['\n']);
        self.component(nl).close()
    }

    /// The finished message.
    pub fn close(self) -> (r: Vec<MessageComponent>)
        ensures
            r@ == self@,
    {
        self.message
    }
}

impl MessageComponentBuilder {
    /// Appends the component to the message.
    pub fn close(self) -> (r: MessageBuilder)
        ensures
            r@ == self.parts().push(self.current()),
    {
        let mut message = self.message;
        message.message.push(self.component);
        message
    }

    /// Sets the component's colour.
    pub fn with_color(self, color: Option<Color>) -> (r: MessageComponentBuilder)
        ensures
            r.parts() == self.parts(),
            r.current() == (MessageComponent { color, ..self.current() }),
    {
        let mut b = self;
        b.component.color = color;
        b
    }

    /// Sets the component's decorations.
    pub fn with_modifiers(self, modifiers: Option<Modifiers>) -> (r: MessageComponentBuilder)
        ensures
            r.parts() == self.parts(),
            r.current() == (MessageComponent { modifiers, ..self.current() }),
    {
        let mut b = self;
        b.component.modifiers = modifiers;
        b
    }

    /// Sets the component's font.
    pub fn with_font(self, font: Option<String>) -> (r: MessageComponentBuilder)
        ensures
            r.parts() == self.parts(),
            r.current() == (MessageComponent { font, ..self.current() }),
    {
        let mut b = self;
        b.component.font = font;
        b
    }
}

} // verus!
