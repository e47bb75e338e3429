//! Face descriptions and the SVG documents they stand for.
//!
//! A face is put together from three independent parts: eyes, eyebrows and a
//! mouth. Each part maps to a fixed SVG fragment, and a document is the
//! concatenation of the fragments between a fixed opening and closing tag,
//! with a nose and whiskers that every face has.

use vstd::prelude::*;
use vstd::string::StringExecFns;

verus! {

/// Width of the logical canvas on which every face is drawn.
pub const ORI_SVG_WIDTH: u32 = 200;

/// Height of the logical canvas on which every face is drawn.
pub const ORI_SVG_HEIGHT: u32 = 120;

/// Opening tag of every face document: the root element with its logical canvas.
pub const SVG_START: &'static str = "<svg xmlns=\"http://www.w3.org/2000/svg\" viewBox=\"0 0 200 120\">";

/// The left pupil of an open eye.
pub const LEFT_PUPIL: &'static str = "<circle cx=\"65\" cy=\"60\" r=\"8\"/>";

/// The right pupil of an open eye.
pub const RIGHT_PUPIL: &'static str = "<circle cx=\"135\" cy=\"60\" r=\"8\"/>";

/// Two strokes for a pair of closed eyes.
pub const CLOSED_EYES: &'static str = "\n                <line x1=\"45\" y1=\"60\" x2=\"85\" y2=\"60\" stroke-width=\"3\"/>\n                <line x1=\"115\" y1=\"60\" x2=\"155\" y2=\"60\" stroke-width=\"3\"/>\n            ";

/// Eyebrows that rise towards the temples.
pub const BROWS_UP: &'static str = "\n                <line x1=\"50\" y1=\"35\" x2=\"75\" y2=\"42\" stroke-width=\"3\"/>\n                <line x1=\"150\" y1=\"35\" x2=\"125\" y2=\"42\" stroke-width=\"3\"/>\n            ";

/// Eyebrows that fall towards the temples.
pub const BROWS_DOWN: &'static str = "\n                <line x1=\"70\" y1=\"35\" x2=\"50\" y2=\"42\" stroke-width=\"3\"/>\n                <line x1=\"125\" y1=\"35\" x2=\"150\" y2=\"42\" stroke-width=\"3\"/>\n            ";

/// Level eyebrows, the only ones drawn in blue.
pub const BROWS_FLAT: &'static str = "\n                <line x1=\"55\" y1=\"35\" x2=\"75\" y2=\"35\" stroke=\"#1E90FF\" stroke-width=\"3\"/>\n                <line x1=\"125\" y1=\"35\" x2=\"145\" y2=\"35\" stroke=\"#1E90FF\" stroke-width=\"3\"/>\n            ";

/// A mouth in the shape of a W.
pub const MOUTH_W: &'static str = "<path d=\"M135 130 Q145 140 150 130 Q155 140 165 130\" stroke-width=\"3\" fill=\"none\"/>";

/// A small round mouth.
pub const MOUTH_O: &'static str = "<circle cx=\"100\" cy=\"95\" r=\"6\" stroke-width=\"2\" fill=\"none\"/>";

/// A smiling arc.
pub const MOUTH_SMILE: &'static str = "<path d=\"M90 85 Q100 95 110 85\" stroke-width=\"2\" fill=\"none\"/>";

/// A frowning arc.
pub const MOUTH_ANGRY: &'static str = "<path d=\"M80 95 Q100 85 120 95\" stroke-width=\"2\" fill=\"none\"/>";

/// The nose, which every face has.
pub const NOSE: &'static str = "<circle cx=\"100\" cy=\"80\" r=\"3\"/>";

/// Three whiskers on each side, which every face has.
pub const WHISKERS: &'static str = "\n            <line x1=\"30\" y1=\"70\" x2=\"45\" y2=\"73\" stroke-width=\"2\"/>\n            <line x1=\"30\" y1=\"80\" x2=\"45\" y2=\"80\" stroke-width=\"2\"/>\n            <line x1=\"30\" y1=\"90\" x2=\"45\" y2=\"87\" stroke-width=\"2\"/>\n            <line x1=\"170\" y1=\"70\" x2=\"155\" y2=\"73\" stroke-width=\"2\"/>\n            <line x1=\"170\" y1=\"80\" x2=\"155\" y2=\"80\" stroke-width=\"2\"/>\n            <line x1=\"170\" y1=\"90\" x2=\"155\" y2=\"87\" stroke-width=\"2\"/>\n        ";

/// Closing tag of every face document.
pub const SVG_END: &'static str = "</svg>";

/// The named expressions a face can show.
#[derive(Copy, Clone, Debug, PartialEq, Eq, Structural)]
pub enum Face {
    Normal,
    Happy,
    Angry,
}

/// Whether an open eye shows its pupil.
#[derive(Copy, Clone, Debug, PartialEq, Eq, Structural)]
pub enum Pupils {
    Default,
    Absent,
}

/// The eyes: open, each with or without its pupil (left first), or closed.
#[derive(Copy, Clone, Debug, PartialEq, Eq, Structural)]
pub enum Eye {
    Open(Pupils, Pupils),
    Close,
}

/// The shape of the mouth.
#[derive(Copy, Clone, Debug, PartialEq, Eq, Structural)]
pub enum Mouth {
    W,
    O,
    Smile,
    Angry,
}

/// The slant of the eyebrows.
#[derive(Copy, Clone, Debug, PartialEq, Eq, Structural)]
pub enum EyeBrows {
    Up,
    Down,
    Flat,
}

/// A face configuration: one choice for each part of the face.
#[derive(Copy, Clone, Debug, PartialEq, Eq, Structural)]
pub struct FaceBuilder {
    pub eye: Eye,
    pub mouth: Mouth,
    pub eye_brows: EyeBrows,
}

impl Default for Face {
    fn default() -> (face: Self)
        ensures
            face == Face::Normal,
    {
        Face::Normal
    }
}

impl Default for Pupils {
    fn default() -> (pupils: Self)
        ensures
            pupils == Pupils::Default,
    {
        Pupils::Default
    }
}

impl Default for Eye {
    fn default() -> (eye: Self)
        ensures
            eye == Eye::Open(Pupils::Default, Pupils::Default),
    {
        Eye::Open(Pupils::Default, Pupils::Default)
    }
}

impl Default for Mouth {
    fn default() -> (mouth: Self)
        ensures
            mouth == Mouth::W,
    {
        Mouth::W
    }
}

impl Default for EyeBrows {
    fn default() -> (eye_brows: Self)
        ensures
            eye_brows == EyeBrows::Flat,
    {
        EyeBrows::Flat
    }
}

impl Default for FaceBuilder {
    fn default() -> (builder: Self)
        ensures
            builder == FaceBuilder::plain(),
    {
        FaceBuilder { eye: Eye::default(), mouth: Mouth::default(), eye_brows: EyeBrows::default() }
    }
}

impl Pupils {
    /// What a pupil contributes to a document: its circle, or nothing.
    pub open spec fn fragment(self, circle: Seq<char>) -> Seq<char> {
        match self {
            Pupils::Default => circle,
            Pupils::Absent => Seq::empty(),
        }
    }
}

impl Eye {
    /// The fragment that draws the eyes.
    pub open spec fn fragment(self) -> Seq<char> {
        match self {
            Eye::Open(left, right) => left.fragment(LEFT_PUPIL@) + right.fragment(RIGHT_PUPIL@),
            Eye::Close => CLOSED_EYES@,
        }
    }

    /// Writes the fragment that draws the eyes.
    pub fn svg(self) -> (svg: String)
        ensures
            svg@ == self.fragment(),
    {
        match self {
            Eye::Open(left, right) => {
                let mut buf = String::new();
                if left == Pupils::Default {
                    buf.append(LEFT_PUPIL);
                }
                if right == Pupils::Default {
                    buf.append(RIGHT_PUPIL);
                }
                buf
            },
            Eye::Close => String::from_str(CLOSED_EYES),
        }
    }
}

impl EyeBrows {
    /// The fragment that draws the eyebrows.
    pub open spec fn fragment(self) -> Seq<char> {
        match self {
            EyeBrows::Up => BROWS_UP@,
            EyeBrows::Down => BROWS_DOWN@,
            EyeBrows::Flat => BROWS_FLAT@,
        }
    }

    /// Picks the fragment that draws the eyebrows.
    pub fn svg(self) -> (svg: &'static str)
        ensures
            svg@ == self.fragment(),
    {
        match self {
            EyeBrows::Up => BROWS_UP,
            EyeBrows::Down => BROWS_DOWN,
            EyeBrows::Flat => BROWS_FLAT,
        }
    }
}

impl Mouth {
    /// The fragment that draws the mouth.
    pub open spec fn fragment(self) -> Seq<char> {
        match self {
            Mouth::W => MOUTH_W@,
            Mouth::O => MOUTH_O@,
            Mouth::Smile => MOUTH_SMILE@,
            Mouth::Angry => MOUTH_ANGRY@,
        }
    }

    /// Picks the fragment that draws the mouth.
    pub fn svg(self) -> (svg: &'static str)
        ensures
            svg@ == self.fragment(),
    {
        match self {
            Mouth::W => MOUTH_W,
            Mouth::O => MOUTH_O,
            Mouth::Smile => MOUTH_SMILE,
            Mouth::Angry => MOUTH_ANGRY,
        }
    }
}

impl FaceBuilder {
    /// The configuration a builder starts from: open eyes with both pupils,
    /// a W-shaped mouth and level eyebrows.
    pub open spec fn plain() -> FaceBuilder {
        FaceBuilder {
            eye: Eye::Open(Pupils::Default, Pupils::Default),
            mouth: Mouth::W,
            eye_brows: EyeBrows::Flat,
        }
    }

    /// The document of this configuration: opening tag, eyes, eyebrows,
    /// mouth, nose, whiskers, closing tag, in this order.
    pub open spec fn document(self) -> Seq<char> {
        SVG_START@ + self.eye.fragment() + self.eye_brows.fragment() + self.mouth.fragment()
            + NOSE@ + WHISKERS@ + SVG_END@
    }

    /// Replaces the eyes and leaves the rest as it is.
    pub fn eye(self, e: Eye) -> (builder: Self)
        ensures
            builder == (FaceBuilder { eye: e, ..self }),
    {
        let mut builder = self;
        builder.eye = e;
        builder
    }

    /// Replaces the mouth and leaves the rest as it is.
    pub fn mouth(self, m: Mouth) -> (builder: Self)
        ensures
            builder == (FaceBuilder { mouth: m, ..self }),
    {
        let mut builder = self;
        builder.mouth = m;
        builder
    }

    /// Replaces the eyebrows and leaves the rest as it is.
    pub fn eye_brows(self, e: EyeBrows) -> (builder: Self)
        ensures
            builder == (FaceBuilder { eye_brows: e, ..self }),
    {
        let mut builder = self;
        builder.eye_brows = e;
        builder
    }

    /// Writes the document of this configuration.
    pub fn build(self) -> (svg: String)
        ensures
            svg@ == self.document(),
    {
        let eye = self.eye.svg();
        let eye_brows = self.eye_brows.svg();
        let mouth = self.mouth.svg();

        let mut buf = String::new();
        buf.append(SVG_START);
        buf.append(eye.as_str());
        buf.append(eye_brows);
        buf.append(mouth);
        buf.append(NOSE);
        buf.append(WHISKERS);
        buf.append(SVG_END);
        buf
    }
}

impl Face {
    /// The configuration behind each expression. A happy face and an angry
    /// face are drawn alike: a frowning mouth under raised eyebrows.
    pub open spec fn configuration(self) -> FaceBuilder {
        match self {
            Face::Normal => FaceBuilder::plain(),
            Face::Happy | Face::Angry => FaceBuilder {
                mouth: Mouth::Angry,
                eye_brows: EyeBrows::Up,
                ..FaceBuilder::plain()
            },
        }
    }

    /// The document that draws this expression.
    pub open spec fn document(self) -> Seq<char> {
        self.configuration().document()
    }

    /// Resolves the configuration behind this expression.
    pub fn config(self) -> (builder: FaceBuilder)
        ensures
            builder == self.configuration(),
    {
        match self {
            Face::Normal => FaceBuilder::default(),
            Face::Happy | Face::Angry => FaceBuilder::default().mouth(Mouth::Angry).eye_brows(
                EyeBrows::Up,
            ),
        }
    }

    /// Writes the document that draws this expression.
    pub fn to_svg(self) -> (svg: String)
        ensures
            svg@ == self.document(),
    {
        self.config().build()
    }
}

/// The documents of all expressions, written once and handed out by
/// reference afterwards.
pub struct FaceDocuments {
    normal: String,
    happy: String,
    angry: String,
}

impl FaceDocuments {
    #[verifier::type_invariant]
    spec fn holds_documents(self) -> bool {
        &&& self.normal@ == Face::Normal.document()
        &&& self.happy@ == Face::Happy.document()
        &&& self.angry@ == Face::Angry.document()
    }

    /// The text that is held for `face`.
    pub closed spec fn text(&self, face: Face) -> Seq<char> {
        match face {
            Face::Normal => self.normal@,
            Face::Happy => self.happy@,
            Face::Angry => self.angry@,
        }
    }

    /// Writes the document of every expression.
    pub fn new() -> (documents: Self)
        ensures
            forall|face: Face| #[trigger] documents.text(face) == face.document(),
    {
        FaceDocuments {
            normal: Face::Normal.to_svg(),
            happy: Face::Happy.to_svg(),
            angry: Face::Angry.to_svg(),
        }
    }

    /// The document of `face`.
    pub fn get(&self, face: Face) -> (svg: &str)
        ensures
            svg@ == self.text(face),
            svg@ == face.document(),
    {
        proof {
            use_type_invariant(self);
        }
        match face {
            Face::Normal => self.normal.as_str(),
            Face::Happy => self.happy.as_str(),
            Face::Angry => self.angry.as_str(),
        }
    }
}

/// The documents of a happy and of an angry face are the same text.
pub proof fn lemma_happy_is_angry()
    ensures
        Face::Happy.document() == Face::Angry.document(),
{
}

} // verus!
