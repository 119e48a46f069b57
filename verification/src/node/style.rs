//! Inline decoration (emphasis-dot and line) styles.

use vstd::prelude::*;

use crate::strutil::{eq_pat, str_to_chars};

verus! {

/// Decoration style applied to a run of text.
#[derive(Debug, Clone, Copy, PartialEq, Eq, Structural)]
pub enum StyleType {
    /// `傍点`
    SesameDot,
    /// `白ゴマ傍点`
    WhiteSesameDot,
    /// `丸傍点`
    BlackCircle,
    /// `白丸傍点`
    WhiteCircle,
    /// `黒三角傍点`
    BlackTriangle,
    /// `白三角傍点`
    WhiteTriangle,
    /// `二重丸傍点`
    Bullseye,
    /// `蛇の目傍点`
    Fisheye,
    /// `ばつ傍点`
    Saltire,
    /// `左に傍点`
    SesameDotAfter,
    /// `左に白ゴマ傍点`
    WhiteSesameDotAfter,
    /// `左に丸傍点`
    BlackCircleAfter,
    /// `左に白丸傍点`
    WhiteCircleAfter,
    /// `左に黒三角傍点`
    BlackTriangleAfter,
    /// `左に白三角傍点`
    WhiteTriangleAfter,
    /// `左に二重丸傍点`
    BullseyeAfter,
    /// `左に蛇の目傍点`
    FisheyeAfter,
    /// `左にばつ傍点`
    SaltireAfter,
    /// `傍線`
    UnderlineSolid,
    /// `二重傍線`
    UnderlineDouble,
    /// `鎖線`
    UnderlineDotted,
    /// `破線`
    UnderlineDashed,
    /// `波線`
    UnderlineWave,
    /// `左に傍線`
    OverlineSolid,
    /// `左に二重傍線`
    OverlineDouble,
    /// `左に鎖線`
    OverlineDotted,
    /// `左に破線`
    OverlineDashed,
    /// `左に波線`
    OverlineWave,
    /// `太字`
    Bold,
    /// `斜体`
    Italic,
    /// `下付き小文字`
    Subscript,
    /// `上付き小文字`
    Superscript,
}

/// The style whose command name is exactly `s`, if any.
pub open spec fn spec_style_from(s: Seq<char>) -> Option<StyleType> {
    if s == "傍点"@ {
        Some(StyleType::SesameDot)
    } else if s == "白ゴマ傍点"@ {
        Some(StyleType::WhiteSesameDot)
    } else if s == "丸傍点"@ {
        Some(StyleType::BlackCircle)
    } else if s == "白丸傍点"@ {
        Some(StyleType::WhiteCircle)
    } else if s == "黒三角傍点"@ {
        Some(StyleType::BlackTriangle)
    } else if s == "白三角傍点"@ {
        Some(StyleType::WhiteTriangle)
    } else if s == "二重丸傍点"@ {
        Some(StyleType::Bullseye)
    } else if s == "蛇の目傍点"@ {
        Some(StyleType::Fisheye)
    } else if s == "ばつ傍点"@ {
        Some(StyleType::Saltire)
    } else if s == "左に傍点"@ {
        Some(StyleType::SesameDotAfter)
    } else if s == "左に白ゴマ傍点"@ {
        Some(StyleType::WhiteSesameDotAfter)
    } else if s == "左に丸傍点"@ {
        Some(StyleType::BlackCircleAfter)
    } else if s == "左に白丸傍点"@ {
        Some(StyleType::WhiteCircleAfter)
    } else if s == "左に黒三角傍点"@ {
        Some(StyleType::BlackTriangleAfter)
    } else if s == "左に白三角傍点"@ {
        Some(StyleType::WhiteTriangleAfter)
    } else if s == "左に二重丸傍点"@ {
        Some(StyleType::BullseyeAfter)
    } else if s == "左に蛇の目傍点"@ {
        Some(StyleType::FisheyeAfter)
    } else if s == "左にばつ傍点"@ {
        Some(StyleType::SaltireAfter)
    } else if s == "傍線"@ {
        Some(StyleType::UnderlineSolid)
    } else if s == "二重傍線"@ {
        Some(StyleType::UnderlineDouble)
    } else if s == "鎖線"@ {
        Some(StyleType::UnderlineDotted)
    } else if s == "破線"@ {
        Some(StyleType::UnderlineDashed)
    } else if s == "波線"@ {
        Some(StyleType::UnderlineWave)
    } else if s == "左に傍線"@ {
        Some(StyleType::OverlineSolid)
    } else if s == "左に二重傍線"@ {
        Some(StyleType::OverlineDouble)
    } else if s == "左に鎖線"@ {
        Some(StyleType::OverlineDotted)
    } else if s == "左に破線"@ {
        Some(StyleType::OverlineDashed)
    } else if s == "左に波線"@ {
        Some(StyleType::OverlineWave)
    } else if s == "太字"@ {
        Some(StyleType::Bold)
    } else if s == "斜体"@ {
        Some(StyleType::Italic)
    } else if s == "下付き小文字"@ {
        Some(StyleType::Subscript)
    } else if s == "上付き小文字"@ {
        Some(StyleType::Superscript)
    } else if s == "行左小書き"@ {
        Some(StyleType::Subscript)
    } else if s == "行右小書き"@ {
        Some(StyleType::Superscript)
    } else {
        None
    }
}

/// The command name of a style.
pub open spec fn spec_style_command_name(t: StyleType) -> Seq<char> {
    match t {
            StyleType::SesameDot => "傍点"@,
            StyleType::WhiteSesameDot => "白ゴマ傍点"@,
            StyleType::BlackCircle => "丸傍点"@,
            StyleType::WhiteCircle => "白丸傍点"@,
            StyleType::BlackTriangle => "黒三角傍点"@,
            StyleType::WhiteTriangle => "白三角傍点"@,
            StyleType::Bullseye => "二重丸傍点"@,
            StyleType::Fisheye => "蛇の目傍点"@,
            StyleType::Saltire => "ばつ傍点"@,
            StyleType::SesameDotAfter => "左に傍点"@,
            StyleType::WhiteSesameDotAfter => "左に白ゴマ傍点"@,
            StyleType::BlackCircleAfter => "左に丸傍点"@,
            StyleType::WhiteCircleAfter => "左に白丸傍点"@,
            StyleType::BlackTriangleAfter => "左に黒三角傍点"@,
            StyleType::WhiteTriangleAfter => "左に白三角傍点"@,
            StyleType::BullseyeAfter => "左に二重丸傍点"@,
            StyleType::FisheyeAfter => "左に蛇の目傍点"@,
            StyleType::SaltireAfter => "左にばつ傍点"@,
            StyleType::UnderlineSolid => "傍線"@,
            StyleType::UnderlineDouble => "二重傍線"@,
            StyleType::UnderlineDotted => "鎖線"@,
            StyleType::UnderlineDashed => "破線"@,
            StyleType::UnderlineWave => "波線"@,
            StyleType::OverlineSolid => "左に傍線"@,
            StyleType::OverlineDouble => "左に二重傍線"@,
            StyleType::OverlineDotted => "左に鎖線"@,
            StyleType::OverlineDashed => "左に破線"@,
            StyleType::OverlineWave => "左に波線"@,
            StyleType::Bold => "太字"@,
            StyleType::Italic => "斜体"@,
            StyleType::Subscript => "下付き小文字"@,
            StyleType::Superscript => "上付き小文字"@,
    }
}

/// The variant of a style shown on the left (vertical) or below (horizontal).
pub open spec fn spec_to_after_variant(t: StyleType) -> StyleType {
    match t {
            StyleType::SesameDot => StyleType::SesameDotAfter,
            StyleType::WhiteSesameDot => StyleType::WhiteSesameDotAfter,
            StyleType::BlackCircle => StyleType::BlackCircleAfter,
            StyleType::WhiteCircle => StyleType::WhiteCircleAfter,
            StyleType::BlackTriangle => StyleType::BlackTriangleAfter,
            StyleType::WhiteTriangle => StyleType::WhiteTriangleAfter,
            StyleType::Bullseye => StyleType::BullseyeAfter,
            StyleType::Fisheye => StyleType::FisheyeAfter,
            StyleType::Saltire => StyleType::SaltireAfter,
            StyleType::UnderlineSolid => StyleType::OverlineSolid,
            StyleType::UnderlineDouble => StyleType::OverlineDouble,
            StyleType::UnderlineDotted => StyleType::OverlineDotted,
            StyleType::UnderlineDashed => StyleType::OverlineDashed,
            StyleType::UnderlineWave => StyleType::OverlineWave,
            other => other,
    }
}

impl StyleType {
    /// The style whose command name is exactly `command`, if any.
    pub fn from_command(command: &str) -> (r: Option<Self>)
        ensures
            r == spec_style_from(command@),
    {
        let v = str_to_chars(command);
        if eq_pat(&v, &str_to_chars("傍点")) {
            Some(StyleType::SesameDot)
        } else if eq_pat(&v, &str_to_chars("白ゴマ傍点")) {
            Some(StyleType::WhiteSesameDot)
        } else if eq_pat(&v, &str_to_chars("丸傍点")) {
            Some(StyleType::BlackCircle)
        } else if eq_pat(&v, &str_to_chars("白丸傍点")) {
            Some(StyleType::WhiteCircle)
        } else if eq_pat(&v, &str_to_chars("黒三角傍点")) {
            Some(StyleType::BlackTriangle)
        } else if eq_pat(&v, &str_to_chars("白三角傍点")) {
            Some(StyleType::WhiteTriangle)
        } else if eq_pat(&v, &str_to_chars("二重丸傍点")) {
            Some(StyleType::Bullseye)
        } else if eq_pat(&v, &str_to_chars("蛇の目傍点")) {
            Some(StyleType::Fisheye)
        } else if eq_pat(&v, &str_to_chars("ばつ傍点")) {
            Some(StyleType::Saltire)
        } else if eq_pat(&v, &str_to_chars("左に傍点")) {
            Some(StyleType::SesameDotAfter)
        } else if eq_pat(&v, &str_to_chars("左に白ゴマ傍点")) {
            Some(StyleType::WhiteSesameDotAfter)
        } else if eq_pat(&v, &str_to_chars("左に丸傍点")) {
            Some(StyleType::BlackCircleAfter)
        } else if eq_pat(&v, &str_to_chars("左に白丸傍点")) {
            Some(StyleType::WhiteCircleAfter)
        } else if eq_pat(&v, &str_to_chars("左に黒三角傍点")) {
            Some(StyleType::BlackTriangleAfter)
        } else if eq_pat(&v, &str_to_chars("左に白三角傍点")) {
            Some(StyleType::WhiteTriangleAfter)
        } else if eq_pat(&v, &str_to_chars("左に二重丸傍点")) {
            Some(StyleType::BullseyeAfter)
        } else if eq_pat(&v, &str_to_chars("左に蛇の目傍点")) {
            Some(StyleType::FisheyeAfter)
        } else if eq_pat(&v, &str_to_chars("左にばつ傍点")) {
            Some(StyleType::SaltireAfter)
        } else if eq_pat(&v, &str_to_chars("傍線")) {
            Some(StyleType::UnderlineSolid)
        } else if eq_pat(&v, &str_to_chars("二重傍線")) {
            Some(StyleType::UnderlineDouble)
        } else if eq_pat(&v, &str_to_chars("鎖線")) {
            Some(StyleType::UnderlineDotted)
        } else if eq_pat(&v, &str_to_chars("破線")) {
            Some(StyleType::UnderlineDashed)
        } else if eq_pat(&v, &str_to_chars("波線")) {
            Some(StyleType::UnderlineWave)
        } else if eq_pat(&v, &str_to_chars("左に傍線")) {
            Some(StyleType::OverlineSolid)
        } else if eq_pat(&v, &str_to_chars("左に二重傍線")) {
            Some(StyleType::OverlineDouble)
        } else if eq_pat(&v, &str_to_chars("左に鎖線")) {
            Some(StyleType::OverlineDotted)
        } else if eq_pat(&v, &str_to_chars("左に破線")) {
            Some(StyleType::OverlineDashed)
        } else if eq_pat(&v, &str_to_chars("左に波線")) {
            Some(StyleType::OverlineWave)
        } else if eq_pat(&v, &str_to_chars("太字")) {
            Some(StyleType::Bold)
        } else if eq_pat(&v, &str_to_chars("斜体")) {
            Some(StyleType::Italic)
        } else if eq_pat(&v, &str_to_chars("下付き小文字")) {
            Some(StyleType::Subscript)
        } else if eq_pat(&v, &str_to_chars("上付き小文字")) {
            Some(StyleType::Superscript)
        } else if eq_pat(&v, &str_to_chars("行左小書き")) {
            Some(StyleType::Subscript)
        } else if eq_pat(&v, &str_to_chars("行右小書き")) {
            Some(StyleType::Superscript)
        } else {
            None
        }
    }

    /// The left-hand (after) variant of this style.
    pub fn to_after_variant(self) -> (r: Self)
        ensures
            r == spec_to_after_variant(self),
    {
        match self {
            StyleType::SesameDot => StyleType::SesameDotAfter,
            StyleType::WhiteSesameDot => StyleType::WhiteSesameDotAfter,
            StyleType::BlackCircle => StyleType::BlackCircleAfter,
            StyleType::WhiteCircle => StyleType::WhiteCircleAfter,
            StyleType::BlackTriangle => StyleType::BlackTriangleAfter,
            StyleType::WhiteTriangle => StyleType::WhiteTriangleAfter,
            StyleType::Bullseye => StyleType::BullseyeAfter,
            StyleType::Fisheye => StyleType::FisheyeAfter,
            StyleType::Saltire => StyleType::SaltireAfter,
            StyleType::UnderlineSolid => StyleType::OverlineSolid,
            StyleType::UnderlineDouble => StyleType::OverlineDouble,
            StyleType::UnderlineDotted => StyleType::OverlineDotted,
            StyleType::UnderlineDashed => StyleType::OverlineDashed,
            StyleType::UnderlineWave => StyleType::OverlineWave,
            other => other,
        }
    }

    /// The command name of this style.
    pub fn command_name(&self) -> (r: &'static str)
        ensures
            r@ == spec_style_command_name(*self),
    {
        match self {
            StyleType::SesameDot => "傍点",
            StyleType::WhiteSesameDot => "白ゴマ傍点",
            StyleType::BlackCircle => "丸傍点",
            StyleType::WhiteCircle => "白丸傍点",
            StyleType::BlackTriangle => "黒三角傍点",
            StyleType::WhiteTriangle => "白三角傍点",
            StyleType::Bullseye => "二重丸傍点",
            StyleType::Fisheye => "蛇の目傍点",
            StyleType::Saltire => "ばつ傍点",
            StyleType::SesameDotAfter => "左に傍点",
            StyleType::WhiteSesameDotAfter => "左に白ゴマ傍点",
            StyleType::BlackCircleAfter => "左に丸傍点",
            StyleType::WhiteCircleAfter => "左に白丸傍点",
            StyleType::BlackTriangleAfter => "左に黒三角傍点",
            StyleType::WhiteTriangleAfter => "左に白三角傍点",
            StyleType::BullseyeAfter => "左に二重丸傍点",
            StyleType::FisheyeAfter => "左に蛇の目傍点",
            StyleType::SaltireAfter => "左にばつ傍点",
            StyleType::UnderlineSolid => "傍線",
            StyleType::UnderlineDouble => "二重傍線",
            StyleType::UnderlineDotted => "鎖線",
            StyleType::UnderlineDashed => "破線",
            StyleType::UnderlineWave => "波線",
            StyleType::OverlineSolid => "左に傍線",
            StyleType::OverlineDouble => "左に二重傍線",
            StyleType::OverlineDotted => "左に鎖線",
            StyleType::OverlineDashed => "左に破線",
            StyleType::OverlineWave => "左に波線",
            StyleType::Bold => "太字",
            StyleType::Italic => "斜体",
            StyleType::Subscript => "下付き小文字",
            StyleType::Superscript => "上付き小文字",
        }
    }
}

} // verus!
