//! The animation catalog: a closed set of named animations, each an ordered,
//! non-empty sequence of frame glyphs.

use crate::error::{SpinnerError, SpinnerErrorView};
use crate::glyphs;
use crate::text::{capitalize, capitalized, str_eq};
use vstd::prelude::*;
use vstd::slice::slice_to_vec;
use vstd::string::*;

verus! {

/// The frames of one animation, in playback order.
pub type Frames = &'static [&'static str];

/// Every animation of the catalog.
#[derive(Debug, Clone, Copy, PartialEq, Eq, Structural)]
pub enum Spinners {
    /// The `dots` animation.
    Dots,
    /// The `dots2` animation.
    Dots2,
    /// The `dots3` animation.
    Dots3,
    /// The `dots4` animation.
    Dots4,
    /// The `dots5` animation.
    Dots5,
    /// The `dots6` animation.
    Dots6,
    /// The `dots7` animation.
    Dots7,
    /// The `dots8` animation.
    Dots8,
    /// The `dots9` animation.
    Dots9,
    /// The `dots10` animation.
    Dots10,
    /// The `dots11` animation.
    Dots11,
    /// The `dots8Bit` animation.
    Dots8Bit,
    /// The `arrow` animation.
    Arrow,
    /// The `arrow2` animation.
    Arrow2,
    /// The `arrow3` animation.
    Arrow3,
    /// The `bouncingBar` animation.
    BouncingBar,
    /// The `bouncingBall` animation.
    BouncingBall,
    /// The `smiley` animation.
    Smiley,
    /// The `monkey` animation.
    Monkey,
    /// The `hearts` animation.
    Hearts,
    /// The `clock` animation.
    Clock,
    /// The `earth` animation.
    Earth,
    /// The `material` animation.
    Material,
    /// The `moon` animation.
    Moon,
    /// The `runner` animation.
    Runner,
    /// The `pong` animation.
    Pong,
    /// The `shark` animation.
    Shark,
    /// The `dqpb` animation.
    Dqpb,
    /// The `weather` animation.
    Weather,
    /// The `christmas` animation.
    Christmas,
    /// The `grenade` animation.
    Grenade,
    /// The `point` animation.
    Point,
    /// The `layer` animation.
    Layer,
    /// The `betaWave` animation.
    BetaWave,
    /// The `fingerDance` animation.
    FingerDance,
    /// The `fistBump` animation.
    FistBump,
    /// The `soccerHeader` animation.
    SoccerHeader,
    /// The `mindblown` animation.
    Mindblown,
    /// The `speaker` animation.
    Speaker,
    /// The `orangePulse` animation.
    OrangePulse,
    /// The `bluePulse` animation.
    BluePulse,
    /// The `orangeBluePulse` animation.
    OrangeBluePulse,
    /// The `timeTravel` animation.
    TimeTravel,
    /// The `aesthetic` animation.
    Aesthetic,
    /// The `pipe` animation.
    Pipe,
    /// The `star` animation.
    Star,
    /// The `star2` animation.
    Star2,
    /// The `flip` animation.
    Flip,
    /// The `hamburger` animation.
    Hamburger,
    /// The `growVertical` animation.
    GrowVertical,
    /// The `growHorizontal` animation.
    GrowHorizontal,
    /// The `balloon` animation.
    Balloon,
    /// The `balloon2` animation.
    Balloon2,
    /// The `noise` animation.
    Noise,
    /// The `bounce` animation.
    Bounce,
    /// The `boxBounce` animation.
    BoxBounce,
    /// The `boxBounce2` animation.
    BoxBounce2,
    /// The `triangle` animation.
    Triangle,
    /// The `arc` animation.
    Arc,
    /// The `circle` animation.
    Circle,
    /// The `squareCorners` animation.
    SquareCorners,
    /// The `circleQuaters` animation.
    CircleQuaters,
    /// The `circleHalves` animation.
    CircleHalves,
    /// The `squish` animation.
    Squish,
    /// The `toggle` animation.
    Toggle,
    /// The `toggle2` animation.
    Toggle2,
    /// The `toggle3` animation.
    Toggle3,
    /// The `toggle4` animation.
    Toggle4,
    /// The `toggle5` animation.
    Toggle5,
    /// The `toggle6` animation.
    Toggle6,
    /// The `toggle7` animation.
    Toggle7,
    /// The `toggle8` animation.
    Toggle8,
    /// The `toggle9` animation.
    Toggle9,
    /// The `toggle10` animation.
    Toggle10,
    /// The `toggle11` animation.
    Toggle11,
    /// The `toggle12` animation.
    Toggle12,
    /// The `toggle13` animation.
    Toggle13,
    /// The `line` animation.
    Line,
    /// The `line2` animation.
    Line2,
    /// The `simpleDots` animation.
    SimpleDots,
    /// The `simpleDotsScrolling` animation.
    SimpleDotsScrolling,
}

impl Spinners {
    /// The frames of this animation, in playback order.
    pub open spec fn frames(self) -> Seq<&'static str> {
        match self {
            Spinners::Dots => glyphs::DOTS@,
            Spinners::Dots2 => glyphs::DOTS2@,
            Spinners::Dots3 => glyphs::DOTS3@,
            Spinners::Dots4 => glyphs::DOTS4@,
            Spinners::Dots5 => glyphs::DOTS5@,
            Spinners::Dots6 => glyphs::DOTS6@,
            Spinners::Dots7 => glyphs::DOTS7@,
            Spinners::Dots8 => glyphs::DOTS8@,
            Spinners::Dots9 => glyphs::DOTS9@,
            Spinners::Dots10 => glyphs::DOTS10@,
            Spinners::Dots11 => glyphs::DOTS11@,
            Spinners::Dots8Bit => glyphs::DOTS8_BIT@,
            Spinners::Arrow => glyphs::ARROW@,
            Spinners::Arrow2 => glyphs::ARROW2@,
            Spinners::Arrow3 => glyphs::ARROW3@,
            Spinners::BouncingBar => glyphs::BOUNCING_BAR@,
            Spinners::BouncingBall => glyphs::BOUNCING_BALL@,
            Spinners::Smiley => glyphs::SMILEY@,
            Spinners::Monkey => glyphs::MONKEY@,
            Spinners::Hearts => glyphs::HEARTS@,
            Spinners::Clock => glyphs::CLOCK@,
            Spinners::Earth => glyphs::EARTH@,
            Spinners::Material => glyphs::MATERIAL@,
            Spinners::Moon => glyphs::MOON@,
            Spinners::Runner => glyphs::RUNNER@,
            Spinners::Pong => glyphs::PONG@,
            Spinners::Shark => glyphs::SHARK@,
            Spinners::Dqpb => glyphs::DQPB@,
            Spinners::Weather => glyphs::WEATHER@,
            Spinners::Christmas => glyphs::CHRISTMAS@,
            Spinners::Grenade => glyphs::GRENADE@,
            Spinners::Point => glyphs::POINT@,
            Spinners::Layer => glyphs::LAYER@,
            Spinners::BetaWave => glyphs::BETA_WAVE@,
            Spinners::FingerDance => glyphs::FINGER_DANCE@,
            Spinners::FistBump => glyphs::FIST_BUMP@,
            Spinners::SoccerHeader => glyphs::SOCCER_HEADER@,
            Spinners::Mindblown => glyphs::MINDBLOWN@,
            Spinners::Speaker => glyphs::SPEAKER@,
            Spinners::OrangePulse => glyphs::ORANGE_PULSE@,
            Spinners::BluePulse => glyphs::BLUE_PULSE@,
            Spinners::OrangeBluePulse => glyphs::ORANGE_BLUE_PULSE@,
            Spinners::TimeTravel => glyphs::TIME_TRAVEL@,
            Spinners::Aesthetic => glyphs::AESTHETIC@,
            Spinners::Pipe => glyphs::PIPE@,
            Spinners::Star => glyphs::STAR@,
            Spinners::Star2 => glyphs::STAR2@,
            Spinners::Flip => glyphs::FLIP@,
            Spinners::Hamburger => glyphs::HAMBURGER@,
            Spinners::GrowVertical => glyphs::GROW_VERTICAL@,
            Spinners::GrowHorizontal => glyphs::GROW_HORIZONTAL@,
            Spinners::Balloon => glyphs::BALLOON@,
            Spinners::Balloon2 => glyphs::BALLOON2@,
            Spinners::Noise => glyphs::NOISE@,
            Spinners::Bounce => glyphs::BOUNCE@,
            Spinners::BoxBounce => glyphs::BOX_BOUNCE@,
            Spinners::BoxBounce2 => glyphs::BOX_BOUNCE2@,
            Spinners::Triangle => glyphs::TRIANGLE@,
            Spinners::Arc => glyphs::ARC@,
            Spinners::Circle => glyphs::CIRCLE@,
            Spinners::SquareCorners => glyphs::SQUARE_CORNERS@,
            Spinners::CircleQuaters => glyphs::CIRCLE_QUATERS@,
            Spinners::CircleHalves => glyphs::CIRCLE_HALVES@,
            Spinners::Squish => glyphs::SQUISH@,
            Spinners::Toggle => glyphs::TOGGLE@,
            Spinners::Toggle2 => glyphs::TOGGLE2@,
            Spinners::Toggle3 => glyphs::TOGGLE3@,
            Spinners::Toggle4 => glyphs::TOGGLE4@,
            Spinners::Toggle5 => glyphs::TOGGLE5@,
            Spinners::Toggle6 => glyphs::TOGGLE6@,
            Spinners::Toggle7 => glyphs::TOGGLE7@,
            Spinners::Toggle8 => glyphs::TOGGLE8@,
            Spinners::Toggle9 => glyphs::TOGGLE9@,
            Spinners::Toggle10 => glyphs::TOGGLE10@,
            Spinners::Toggle11 => glyphs::TOGGLE11@,
            Spinners::Toggle12 => glyphs::TOGGLE12@,
            Spinners::Toggle13 => glyphs::TOGGLE13@,
            Spinners::Line => glyphs::LINE@,
            Spinners::Line2 => glyphs::LINE2@,
            Spinners::SimpleDots => glyphs::SIMPLE_DOTS@,
            Spinners::SimpleDotsScrolling => glyphs::SIMPLE_DOTS_SCROLLING@,
        }
    }

    /// The identifier under which this animation is registered.
    pub open spec fn spec_name(&self) -> &'static str {
        match self {
            Spinners::Dots => "dots",
            Spinners::Dots2 => "dots2",
            Spinners::Dots3 => "dots3",
            Spinners::Dots4 => "dots4",
            Spinners::Dots5 => "dots5",
            Spinners::Dots6 => "dots6",
            Spinners::Dots7 => "dots7",
            Spinners::Dots8 => "dots8",
            Spinners::Dots9 => "dots9",
            Spinners::Dots10 => "dots10",
            Spinners::Dots11 => "dots11",
            Spinners::Dots8Bit => "dots8Bit",
            Spinners::Arrow => "arrow",
            Spinners::Arrow2 => "arrow2",
            Spinners::Arrow3 => "arrow3",
            Spinners::BouncingBar => "bouncingBar",
            Spinners::BouncingBall => "bouncingBall",
            Spinners::Smiley => "smiley",
            Spinners::Monkey => "monkey",
            Spinners::Hearts => "hearts",
            Spinners::Clock => "clock",
            Spinners::Earth => "earth",
            Spinners::Material => "material",
            Spinners::Moon => "moon",
            Spinners::Runner => "runner",
            Spinners::Pong => "pong",
            Spinners::Shark => "shark",
            Spinners::Dqpb => "dqpb",
            Spinners::Weather => "weather",
            Spinners::Christmas => "christmas",
            Spinners::Grenade => "grenade",
            Spinners::Point => "point",
            Spinners::Layer => "layer",
            Spinners::BetaWave => "betaWave",
            Spinners::FingerDance => "fingerDance",
            Spinners::FistBump => "fistBump",
            Spinners::SoccerHeader => "soccerHeader",
            Spinners::Mindblown => "mindblown",
            Spinners::Speaker => "speaker",
            Spinners::OrangePulse => "orangePulse",
            Spinners::BluePulse => "bluePulse",
            Spinners::OrangeBluePulse => "orangeBluePulse",
            Spinners::TimeTravel => "timeTravel",
            Spinners::Aesthetic => "aesthetic",
            Spinners::Pipe => "pipe",
            Spinners::Star => "star",
            Spinners::Star2 => "star2",
            Spinners::Flip => "flip",
            Spinners::Hamburger => "hamburger",
            Spinners::GrowVertical => "growVertical",
            Spinners::GrowHorizontal => "growHorizontal",
            Spinners::Balloon => "balloon",
            Spinners::Balloon2 => "balloon2",
            Spinners::Noise => "noise",
            Spinners::Bounce => "bounce",
            Spinners::BoxBounce => "boxBounce",
            Spinners::BoxBounce2 => "boxBounce2",
            Spinners::Triangle => "triangle",
            Spinners::Arc => "arc",
            Spinners::Circle => "circle",
            Spinners::SquareCorners => "squareCorners",
            Spinners::CircleQuaters => "circleQuaters",
            Spinners::CircleHalves => "circleHalves",
            Spinners::Squish => "squish",
            Spinners::Toggle => "toggle",
            Spinners::Toggle2 => "toggle2",
            Spinners::Toggle3 => "toggle3",
            Spinners::Toggle4 => "toggle4",
            Spinners::Toggle5 => "toggle5",
            Spinners::Toggle6 => "toggle6",
            Spinners::Toggle7 => "toggle7",
            Spinners::Toggle8 => "toggle8",
            Spinners::Toggle9 => "toggle9",
            Spinners::Toggle10 => "toggle10",
            Spinners::Toggle11 => "toggle11",
            Spinners::Toggle12 => "toggle12",
            Spinners::Toggle13 => "toggle13",
            Spinners::Line => "line",
            Spinners::Line2 => "line2",
            Spinners::SimpleDots => "simpleDots",
            Spinners::SimpleDotsScrolling => "simpleDotsScrolling",
        }
    }

    /// The position of this animation in the catalog's enumeration.
    pub open spec fn ordinal(self) -> nat {
        match self {
            Spinners::Dots => 0,
            Spinners::Dots2 => 1,
            Spinners::Dots3 => 2,
            Spinners::Dots4 => 3,
            Spinners::Dots5 => 4,
            Spinners::Dots6 => 5,
            Spinners::Dots7 => 6,
            Spinners::Dots8 => 7,
            Spinners::Dots9 => 8,
            Spinners::Dots10 => 9,
            Spinners::Dots11 => 10,
            Spinners::Dots8Bit => 11,
            Spinners::Arrow => 12,
            Spinners::Arrow2 => 13,
            Spinners::Arrow3 => 14,
            Spinners::BouncingBar => 15,
            Spinners::BouncingBall => 16,
            Spinners::Smiley => 17,
            Spinners::Monkey => 18,
            Spinners::Hearts => 19,
            Spinners::Clock => 20,
            Spinners::Earth => 21,
            Spinners::Material => 22,
            Spinners::Moon => 23,
            Spinners::Runner => 24,
            Spinners::Pong => 25,
            Spinners::Shark => 26,
            Spinners::Dqpb => 27,
            Spinners::Weather => 28,
            Spinners::Christmas => 29,
            Spinners::Grenade => 30,
            Spinners::Point => 31,
            Spinners::Layer => 32,
            Spinners::BetaWave => 33,
            Spinners::FingerDance => 34,
            Spinners::FistBump => 35,
            Spinners::SoccerHeader => 36,
            Spinners::Mindblown => 37,
            Spinners::Speaker => 38,
            Spinners::OrangePulse => 39,
            Spinners::BluePulse => 40,
            Spinners::OrangeBluePulse => 41,
            Spinners::TimeTravel => 42,
            Spinners::Aesthetic => 43,
            Spinners::Pipe => 44,
            Spinners::Star => 45,
            Spinners::Star2 => 46,
            Spinners::Flip => 47,
            Spinners::Hamburger => 48,
            Spinners::GrowVertical => 49,
            Spinners::GrowHorizontal => 50,
            Spinners::Balloon => 51,
            Spinners::Balloon2 => 52,
            Spinners::Noise => 53,
            Spinners::Bounce => 54,
            Spinners::BoxBounce => 55,
            Spinners::BoxBounce2 => 56,
            Spinners::Triangle => 57,
            Spinners::Arc => 58,
            Spinners::Circle => 59,
            Spinners::SquareCorners => 60,
            Spinners::CircleQuaters => 61,
            Spinners::CircleHalves => 62,
            Spinners::Squish => 63,
            Spinners::Toggle => 64,
            Spinners::Toggle2 => 65,
            Spinners::Toggle3 => 66,
            Spinners::Toggle4 => 67,
            Spinners::Toggle5 => 68,
            Spinners::Toggle6 => 69,
            Spinners::Toggle7 => 70,
            Spinners::Toggle8 => 71,
            Spinners::Toggle9 => 72,
            Spinners::Toggle10 => 73,
            Spinners::Toggle11 => 74,
            Spinners::Toggle12 => 75,
            Spinners::Toggle13 => 76,
            Spinners::Line => 77,
            Spinners::Line2 => 78,
            Spinners::SimpleDots => 79,
            Spinners::SimpleDotsScrolling => 80,
        }
    }

    /// The catalog's enumeration: every animation, once, in declaration order.
    pub open spec fn all() -> Seq<Spinners> {
        ALL@
    }

    /// Whether an animation is registered under `name`.
    pub open spec fn registered(name: Seq<char>) -> bool {
        exists|s: Spinners| s.name()@ == name
    }

    /// The animation registered under `name`, if there is one.
    pub open spec fn resolve(name: Seq<char>) -> Option<Spinners> {
        if Spinners::registered(name) {
            Some(choose|s: Spinners| s.name()@ == name)
        } else {
            None
        }
    }

    /// The cadence, in milliseconds, at which this animation completes one
    /// cycle per second: 1000 divided by the frame count, rounded down.
    pub open spec fn default_interval(self) -> nat {
        1000nat / self.frames().len()
    }

    /// Gets the frames of this animation.
    pub fn get_frames(&self) -> (r: Frames)
        ensures
            r@ == self.frames(),
            r@.len() > 0,
    {
        match self {
            Spinners::Dots => &glyphs::DOTS,
            Spinners::Dots2 => &glyphs::DOTS2,
            Spinners::Dots3 => &glyphs::DOTS3,
            Spinners::Dots4 => &glyphs::DOTS4,
            Spinners::Dots5 => &glyphs::DOTS5,
            Spinners::Dots6 => &glyphs::DOTS6,
            Spinners::Dots7 => &glyphs::DOTS7,
            Spinners::Dots8 => &glyphs::DOTS8,
            Spinners::Dots9 => &glyphs::DOTS9,
            Spinners::Dots10 => &glyphs::DOTS10,
            Spinners::Dots11 => &glyphs::DOTS11,
            Spinners::Dots8Bit => &glyphs::DOTS8_BIT,
            Spinners::Arrow => &glyphs::ARROW,
            Spinners::Arrow2 => &glyphs::ARROW2,
            Spinners::Arrow3 => &glyphs::ARROW3,
            Spinners::BouncingBar => &glyphs::BOUNCING_BAR,
            Spinners::BouncingBall => &glyphs::BOUNCING_BALL,
            Spinners::Smiley => &glyphs::SMILEY,
            Spinners::Monkey => &glyphs::MONKEY,
            Spinners::Hearts => &glyphs::HEARTS,
            Spinners::Clock => &glyphs::CLOCK,
            Spinners::Earth => &glyphs::EARTH,
            Spinners::Material => &glyphs::MATERIAL,
            Spinners::Moon => &glyphs::MOON,
            Spinners::Runner => &glyphs::RUNNER,
            Spinners::Pong => &glyphs::PONG,
            Spinners::Shark => &glyphs::SHARK,
            Spinners::Dqpb => &glyphs::DQPB,
            Spinners::Weather => &glyphs::WEATHER,
            Spinners::Christmas => &glyphs::CHRISTMAS,
            Spinners::Grenade => &glyphs::GRENADE,
            Spinners::Point => &glyphs::POINT,
            Spinners::Layer => &glyphs::LAYER,
            Spinners::BetaWave => &glyphs::BETA_WAVE,
            Spinners::FingerDance => &glyphs::FINGER_DANCE,
            Spinners::FistBump => &glyphs::FIST_BUMP,
            Spinners::SoccerHeader => &glyphs::SOCCER_HEADER,
            Spinners::Mindblown => &glyphs::MINDBLOWN,
            Spinners::Speaker => &glyphs::SPEAKER,
            Spinners::OrangePulse => &glyphs::ORANGE_PULSE,
            Spinners::BluePulse => &glyphs::BLUE_PULSE,
            Spinners::OrangeBluePulse => &glyphs::ORANGE_BLUE_PULSE,
            Spinners::TimeTravel => &glyphs::TIME_TRAVEL,
            Spinners::Aesthetic => &glyphs::AESTHETIC,
            Spinners::Pipe => &glyphs::PIPE,
            Spinners::Star => &glyphs::STAR,
            Spinners::Star2 => &glyphs::STAR2,
            Spinners::Flip => &glyphs::FLIP,
            Spinners::Hamburger => &glyphs::HAMBURGER,
            Spinners::GrowVertical => &glyphs::GROW_VERTICAL,
            Spinners::GrowHorizontal => &glyphs::GROW_HORIZONTAL,
            Spinners::Balloon => &glyphs::BALLOON,
            Spinners::Balloon2 => &glyphs::BALLOON2,
            Spinners::Noise => &glyphs::NOISE,
            Spinners::Bounce => &glyphs::BOUNCE,
            Spinners::BoxBounce => &glyphs::BOX_BOUNCE,
            Spinners::BoxBounce2 => &glyphs::BOX_BOUNCE2,
            Spinners::Triangle => &glyphs::TRIANGLE,
            Spinners::Arc => &glyphs::ARC,
            Spinners::Circle => &glyphs::CIRCLE,
            Spinners::SquareCorners => &glyphs::SQUARE_CORNERS,
            Spinners::CircleQuaters => &glyphs::CIRCLE_QUATERS,
            Spinners::CircleHalves => &glyphs::CIRCLE_HALVES,
            Spinners::Squish => &glyphs::SQUISH,
            Spinners::Toggle => &glyphs::TOGGLE,
            Spinners::Toggle2 => &glyphs::TOGGLE2,
            Spinners::Toggle3 => &glyphs::TOGGLE3,
            Spinners::Toggle4 => &glyphs::TOGGLE4,
            Spinners::Toggle5 => &glyphs::TOGGLE5,
            Spinners::Toggle6 => &glyphs::TOGGLE6,
            Spinners::Toggle7 => &glyphs::TOGGLE7,
            Spinners::Toggle8 => &glyphs::TOGGLE8,
            Spinners::Toggle9 => &glyphs::TOGGLE9,
            Spinners::Toggle10 => &glyphs::TOGGLE10,
            Spinners::Toggle11 => &glyphs::TOGGLE11,
            Spinners::Toggle12 => &glyphs::TOGGLE12,
            Spinners::Toggle13 => &glyphs::TOGGLE13,
            Spinners::Line => &glyphs::LINE,
            Spinners::Line2 => &glyphs::LINE2,
            Spinners::SimpleDots => &glyphs::SIMPLE_DOTS,
            Spinners::SimpleDotsScrolling => &glyphs::SIMPLE_DOTS_SCROLLING,
        }
    }

    /// The identifier under which this animation is registered.
    #[verifier::when_used_as_spec(spec_name)]
    pub fn name(&self) -> (r: &'static str)
        ensures
            r == self.spec_name(),
    {
        match self {
            Spinners::Dots => "dots",
            Spinners::Dots2 => "dots2",
            Spinners::Dots3 => "dots3",
            Spinners::Dots4 => "dots4",
            Spinners::Dots5 => "dots5",
            Spinners::Dots6 => "dots6",
            Spinners::Dots7 => "dots7",
            Spinners::Dots8 => "dots8",
            Spinners::Dots9 => "dots9",
            Spinners::Dots10 => "dots10",
            Spinners::Dots11 => "dots11",
            Spinners::Dots8Bit => "dots8Bit",
            Spinners::Arrow => "arrow",
            Spinners::Arrow2 => "arrow2",
            Spinners::Arrow3 => "arrow3",
            Spinners::BouncingBar => "bouncingBar",
            Spinners::BouncingBall => "bouncingBall",
            Spinners::Smiley => "smiley",
            Spinners::Monkey => "monkey",
            Spinners::Hearts => "hearts",
            Spinners::Clock => "clock",
            Spinners::Earth => "earth",
            Spinners::Material => "material",
            Spinners::Moon => "moon",
            Spinners::Runner => "runner",
            Spinners::Pong => "pong",
            Spinners::Shark => "shark",
            Spinners::Dqpb => "dqpb",
            Spinners::Weather => "weather",
            Spinners::Christmas => "christmas",
            Spinners::Grenade => "grenade",
            Spinners::Point => "point",
            Spinners::Layer => "layer",
            Spinners::BetaWave => "betaWave",
            Spinners::FingerDance => "fingerDance",
            Spinners::FistBump => "fistBump",
            Spinners::SoccerHeader => "soccerHeader",
            Spinners::Mindblown => "mindblown",
            Spinners::Speaker => "speaker",
            Spinners::OrangePulse => "orangePulse",
            Spinners::BluePulse => "bluePulse",
            Spinners::OrangeBluePulse => "orangeBluePulse",
            Spinners::TimeTravel => "timeTravel",
            Spinners::Aesthetic => "aesthetic",
            Spinners::Pipe => "pipe",
            Spinners::Star => "star",
            Spinners::Star2 => "star2",
            Spinners::Flip => "flip",
            Spinners::Hamburger => "hamburger",
            Spinners::GrowVertical => "growVertical",
            Spinners::GrowHorizontal => "growHorizontal",
            Spinners::Balloon => "balloon",
            Spinners::Balloon2 => "balloon2",
            Spinners::Noise => "noise",
            Spinners::Bounce => "bounce",
            Spinners::BoxBounce => "boxBounce",
            Spinners::BoxBounce2 => "boxBounce2",
            Spinners::Triangle => "triangle",
            Spinners::Arc => "arc",
            Spinners::Circle => "circle",
            Spinners::SquareCorners => "squareCorners",
            Spinners::CircleQuaters => "circleQuaters",
            Spinners::CircleHalves => "circleHalves",
            Spinners::Squish => "squish",
            Spinners::Toggle => "toggle",
            Spinners::Toggle2 => "toggle2",
            Spinners::Toggle3 => "toggle3",
            Spinners::Toggle4 => "toggle4",
            Spinners::Toggle5 => "toggle5",
            Spinners::Toggle6 => "toggle6",
            Spinners::Toggle7 => "toggle7",
            Spinners::Toggle8 => "toggle8",
            Spinners::Toggle9 => "toggle9",
            Spinners::Toggle10 => "toggle10",
            Spinners::Toggle11 => "toggle11",
            Spinners::Toggle12 => "toggle12",
            Spinners::Toggle13 => "toggle13",
            Spinners::Line => "line",
            Spinners::Line2 => "line2",
            Spinners::SimpleDots => "simpleDots",
            Spinners::SimpleDotsScrolling => "simpleDotsScrolling",
        }
    }

    /// Enumerates the catalog: every animation, once, in declaration order.
    pub fn list() -> (r: Vec<Spinners>)
        ensures
            r@ == Spinners::all(),
    {
        slice_to_vec(&ALL)
    }

    /// Resolves `name` to the animation registered under it. The match is
    /// exact and case-sensitive.
    pub fn lookup(name: &str) -> (r: Result<Spinners, SpinnerError>)
        ensures
            r is Ok <==> Spinners::registered(name@),
            r matches Ok(s) ==> s.name()@ == name@ && Spinners::resolve(name@) == Some(s),
            r matches Err(e) ==> e@ == SpinnerErrorView::UnknownAnimation(name@),
    {
        let mut i: usize = 0;
        while i < ALL.len()
            invariant
                i <= ALL@.len(),
                forall|j: int| 0 <= j < i ==> ALL@[j].name()@ != name@,
            decreases ALL@.len() - i,
        {
            let s = ALL[i];
            if str_eq(s.name(), name) {
                proof {
                    let t = choose|t: Spinners| t.name()@ == name@;
                    lemma_names_distinct(s, t);
                }
                return Ok(s);
            }
            i += 1;
        }
        proof {
            assert forall|s: Spinners| s.name()@ != name@ by {
                lemma_all_complete(s);
            }
        }
        Err(SpinnerError::UnknownAnimation(String::from_str(name)))
    }

    /// The default cadence of this animation, in milliseconds.
    pub fn interval(&self) -> (r: u64)
        ensures
            r == self.default_interval(),
            r >= 1,
    {
        let n = self.get_frames().len();
        proof {
            lemma_frame_counts(*self);
            assert(1000nat / (n as nat) >= 1) by (nonlinear_arith)
                requires
                    1 <= n <= 1000,
            ;
        }
        1000 / (n as u64)
    }

    /// The name of this animation with its first letter in upper case.
    pub fn display_name(&self) -> (r: String)
        ensures
            r@ == capitalize(self.name()@),
    {
        capitalized(self.name())
    }
}

/// Every animation of the catalog, in declaration order.
pub const ALL: [Spinners; 81] = [
    Spinners::Dots, Spinners::Dots2, Spinners::Dots3, Spinners::Dots4, Spinners::Dots5,
    Spinners::Dots6, Spinners::Dots7, Spinners::Dots8, Spinners::Dots9, Spinners::Dots10,
    Spinners::Dots11, Spinners::Dots8Bit, Spinners::Arrow, Spinners::Arrow2, Spinners::Arrow3,
    Spinners::BouncingBar, Spinners::BouncingBall, Spinners::Smiley, Spinners::Monkey,
    Spinners::Hearts, Spinners::Clock, Spinners::Earth, Spinners::Material, Spinners::Moon,
    Spinners::Runner, Spinners::Pong, Spinners::Shark, Spinners::Dqpb, Spinners::Weather,
    Spinners::Christmas, Spinners::Grenade, Spinners::Point, Spinners::Layer,
    Spinners::BetaWave, Spinners::FingerDance, Spinners::FistBump, Spinners::SoccerHeader,
    Spinners::Mindblown, Spinners::Speaker, Spinners::OrangePulse, Spinners::BluePulse,
    Spinners::OrangeBluePulse, Spinners::TimeTravel, Spinners::Aesthetic, Spinners::Pipe,
    Spinners::Star, Spinners::Star2, Spinners::Flip, Spinners::Hamburger,
    Spinners::GrowVertical, Spinners::GrowHorizontal, Spinners::Balloon, Spinners::Balloon2,
    Spinners::Noise, Spinners::Bounce, Spinners::BoxBounce, Spinners::BoxBounce2,
    Spinners::Triangle, Spinners::Arc, Spinners::Circle, Spinners::SquareCorners,
    Spinners::CircleQuaters, Spinners::CircleHalves, Spinners::Squish, Spinners::Toggle,
    Spinners::Toggle2, Spinners::Toggle3, Spinners::Toggle4, Spinners::Toggle5,
    Spinners::Toggle6, Spinners::Toggle7, Spinners::Toggle8, Spinners::Toggle9,
    Spinners::Toggle10, Spinners::Toggle11, Spinners::Toggle12, Spinners::Toggle13,
    Spinners::Line, Spinners::Line2, Spinners::SimpleDots, Spinners::SimpleDotsScrolling,
];

/// Every animation has at least one frame and at most a thousand.
pub proof fn lemma_frame_counts(s: Spinners)
    ensures
        1 <= s.frames().len() <= 1000,
{
}

/// The enumeration holds every animation exactly once: each stands at its
/// ordinal, and nowhere else.
pub proof fn lemma_all_complete(s: Spinners)
    ensures
        Spinners::all().len() == 81,
        s.ordinal() < Spinners::all().len(),
        Spinners::all()[s.ordinal() as int] == s,
        forall|i: int| 0 <= i < Spinners::all().len() && Spinners::all()[i] == s ==> i == s.ordinal(),
{
    assert forall|i: int| 0 <= i < Spinners::all().len() implies Spinners::all()[i].ordinal()
        == i by {
        lemma_ordinals(i);
    }
}

/// The animation at position `i` of the enumeration has the ordinal `i`.
proof fn lemma_ordinals(i: int)
    requires
        0 <= i < Spinners::all().len(),
    ensures
        Spinners::all()[i].ordinal() == i,
{
}

/// The length of a string and the character at `k`, as the literal states
/// them.
proof fn lemma_char_of(x: &str, k: int)
    ensures
        x@.len() == strslice_len(x),
        x@[k] == strslice_get_char(x, k),
{
}

/// Two strings with the same characters have the same length and the same
/// character at `k`.
proof fn lemma_same_char(x: &str, y: &str, k: int)
    requires
        x@ == y@,
    ensures
        strslice_len(x) == strslice_len(y),
        strslice_get_char(x, k) == strslice_get_char(y, k),
{
    lemma_char_of(x, k);
    lemma_char_of(y, k);
}

/// What the identifiers are, as far as the laws below need it.
proof fn lemma_name_facts(a: Spinners, b: Spinners)
    ensures
        a.name()@ == b.name()@ ==> a == b,
        a.name()@.len() >= 1,
        'a' <= a.name()@[0] <= 'z',
{
    reveal_strlit("dots");
    reveal_strlit("dots2");
    reveal_strlit("dots3");
    reveal_strlit("dots4");
    reveal_strlit("dots5");
    reveal_strlit("dots6");
    reveal_strlit("dots7");
    reveal_strlit("dots8");
    reveal_strlit("dots9");
    reveal_strlit("dots10");
    reveal_strlit("dots11");
    reveal_strlit("dots8Bit");
    reveal_strlit("arrow");
    reveal_strlit("arrow2");
    reveal_strlit("arrow3");
    reveal_strlit("bouncingBar");
    reveal_strlit("bouncingBall");
    reveal_strlit("smiley");
    reveal_strlit("monkey");
    reveal_strlit("hearts");
    reveal_strlit("clock");
    reveal_strlit("earth");
    reveal_strlit("material");
    reveal_strlit("moon");
    reveal_strlit("runner");
    reveal_strlit("pong");
    reveal_strlit("shark");
    reveal_strlit("dqpb");
    reveal_strlit("weather");
    reveal_strlit("christmas");
    reveal_strlit("grenade");
    reveal_strlit("point");
    reveal_strlit("layer");
    reveal_strlit("betaWave");
    reveal_strlit("fingerDance");
    reveal_strlit("fistBump");
    reveal_strlit("soccerHeader");
    reveal_strlit("mindblown");
    reveal_strlit("speaker");
    reveal_strlit("orangePulse");
    reveal_strlit("bluePulse");
    reveal_strlit("orangeBluePulse");
    reveal_strlit("timeTravel");
    reveal_strlit("aesthetic");
    reveal_strlit("pipe");
    reveal_strlit("star");
    reveal_strlit("star2");
    reveal_strlit("flip");
    reveal_strlit("hamburger");
    reveal_strlit("growVertical");
    reveal_strlit("growHorizontal");
    reveal_strlit("balloon");
    reveal_strlit("balloon2");
    reveal_strlit("noise");
    reveal_strlit("bounce");
    reveal_strlit("boxBounce");
    reveal_strlit("boxBounce2");
    reveal_strlit("triangle");
    reveal_strlit("arc");
    reveal_strlit("circle");
    reveal_strlit("squareCorners");
    reveal_strlit("circleQuaters");
    reveal_strlit("circleHalves");
    reveal_strlit("squish");
    reveal_strlit("toggle");
    reveal_strlit("toggle2");
    reveal_strlit("toggle3");
    reveal_strlit("toggle4");
    reveal_strlit("toggle5");
    reveal_strlit("toggle6");
    reveal_strlit("toggle7");
    reveal_strlit("toggle8");
    reveal_strlit("toggle9");
    reveal_strlit("toggle10");
    reveal_strlit("toggle11");
    reveal_strlit("toggle12");
    reveal_strlit("toggle13");
    reveal_strlit("line");
    reveal_strlit("line2");
    reveal_strlit("simpleDots");
    reveal_strlit("simpleDotsScrolling");
    lemma_char_of(a.name(), 0);
    if a.name()@ == b.name()@ {
        // No identifier is longer than the positions compared here.
        lemma_same_char(a.name(), b.name(), 0);
        lemma_same_char(a.name(), b.name(), 1);
        lemma_same_char(a.name(), b.name(), 2);
        lemma_same_char(a.name(), b.name(), 3);
        lemma_same_char(a.name(), b.name(), 4);
        lemma_same_char(a.name(), b.name(), 5);
        lemma_same_char(a.name(), b.name(), 6);
        lemma_same_char(a.name(), b.name(), 7);
        lemma_same_char(a.name(), b.name(), 8);
        lemma_same_char(a.name(), b.name(), 9);
        lemma_same_char(a.name(), b.name(), 10);
        lemma_same_char(a.name(), b.name(), 11);
        lemma_same_char(a.name(), b.name(), 12);
        lemma_same_char(a.name(), b.name(), 13);
        lemma_same_char(a.name(), b.name(), 14);
        lemma_same_char(a.name(), b.name(), 15);
        lemma_same_char(a.name(), b.name(), 16);
        lemma_same_char(a.name(), b.name(), 17);
        lemma_same_char(a.name(), b.name(), 18);
    }
}

/// No two animations share an identifier.
pub proof fn lemma_names_distinct(a: Spinners, b: Spinners)
    requires
        a.name()@ == b.name()@,
    ensures
        a == b,
{
    lemma_name_facts(a, b);
}

/// Every identifier begins with a lower-case ASCII letter.
pub proof fn lemma_name_initial(s: Spinners)
    ensures
        s.name()@.len() >= 1,
        'a' <= s.name()@[0] <= 'z',
{
    lemma_name_facts(s, s);
}

} // verus!
