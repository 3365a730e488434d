use vstd::prelude::*;
use vstd::string::StringExecFns;
use crate::constants::{
    COPIES, MEDIA, PRINT_COLOR_MODE, PRINT_QUALITY, SIDES, ORIENTATION, PRINT_COLOR_MODE_AUTO,
    PRINT_COLOR_MODE_COLOR, PRINT_COLOR_MODE_MONOCHROME, PRINT_QUALITY_DRAFT, PRINT_QUALITY_NORMAL,
    PRINT_QUALITY_HIGH, SIDES_ONE_SIDED, SIDES_TWO_SIDED_PORTRAIT, SIDES_TWO_SIDED_LANDSCAPE,
    ORIENTATION_PORTRAIT, ORIENTATION_LANDSCAPE,
};
use crate::option_map::OptionMap;
use crate::text::{int_text, u64_text};

verus! {

/// The options of a print job, set one by one in builder style.
#[derive(Debug, Clone)]
pub struct PrintOptions {
    options: OptionMap,
}

impl View for PrintOptions {
    type V = Map<Seq<char>, Seq<char>>;

    closed spec fn view(&self) -> Map<Seq<char>, Seq<char>> {
        self.options@
    }
}

impl PrintOptions {
    /// The options are finitely many.
    pub proof fn lemma_view_finite(&self)
        ensures
            self@.dom().finite(),
    {
        self.options.lemma_view_finite();
    }

    /// No options set.
    pub fn new() -> (r: Self)
        ensures
            r@ == Map::<Seq<char>, Seq<char>>::empty(),
            r@.dom().finite(),
    {
        PrintOptions { options: OptionMap::new() }
    }

    /// Sets the number of copies.
    pub fn copies(self, count: u32) -> (r: Self)
        ensures
            r@ == self@.insert(COPIES@, int_text(count as int)),
            r@.dom().finite(),
            r@.len() == if self@.contains_key(COPIES@) {
                self@.len()
            } else {
                self@.len() + 1
            },
    {
        let mut this = self;
        this.options.insert(String::from_str(COPIES), u64_text(count as u64));
        this
    }

    /// Sets the media (paper size) by its CUPS name.
    pub fn media(self, media: &str) -> (r: Self)
        ensures
            r@ == self@.insert(MEDIA@, media@),
            r@.dom().finite(),
            r@.len() == if self@.contains_key(MEDIA@) {
                self@.len()
            } else {
                self@.len() + 1
            },
    {
        let mut this = self;
        this.options.insert(String::from_str(MEDIA), String::from_str(media));
        this
    }

    /// Sets the color mode.
    pub fn color_mode(self, mode: ColorMode) -> (r: Self)
        ensures
            r@ == self@.insert(PRINT_COLOR_MODE@, mode.value()),
            r@.dom().finite(),
            r@.len() == if self@.contains_key(PRINT_COLOR_MODE@) {
                self@.len()
            } else {
                self@.len() + 1
            },
    {
        let mut this = self;
        this.options.insert(String::from_str(PRINT_COLOR_MODE), mode.to_string());
        this
    }

    /// Sets the print quality.
    pub fn quality(self, quality: PrintQuality) -> (r: Self)
        ensures
            r@ == self@.insert(PRINT_QUALITY@, quality.value()),
            r@.dom().finite(),
            r@.len() == if self@.contains_key(PRINT_QUALITY@) {
                self@.len()
            } else {
                self@.len() + 1
            },
    {
        let mut this = self;
        this.options.insert(String::from_str(PRINT_QUALITY), quality.to_string());
        this
    }

    /// Sets one- or two-sided printing.
    pub fn duplex(self, duplex: DuplexMode) -> (r: Self)
        ensures
            r@ == self@.insert(SIDES@, duplex.value()),
            r@.dom().finite(),
            r@.len() == if self@.contains_key(SIDES@) {
                self@.len()
            } else {
                self@.len() + 1
            },
    {
        let mut this = self;
        this.options.insert(String::from_str(SIDES), duplex.to_string());
        this
    }

    /// Sets the page orientation.
    pub fn orientation(self, orientation: Orientation) -> (r: Self)
        ensures
            r@ == self@.insert(ORIENTATION@, orientation.value()),
            r@.dom().finite(),
            r@.len() == if self@.contains_key(ORIENTATION@) {
                self@.len()
            } else {
                self@.len() + 1
            },
    {
        let mut this = self;
        this.options.insert(String::from_str(ORIENTATION), orientation.to_string());
        this
    }

    /// Sets any option by name.
    pub fn custom_option(self, key: &str, value: &str) -> (r: Self)
        ensures
            r@ == self@.insert(key@, value@),
            r@.dom().finite(),
            r@.len() == if self@.contains_key(key@) {
                self@.len()
            } else {
                self@.len() + 1
            },
    {
        let mut this = self;
        this.options.insert(String::from_str(key), String::from_str(value));
        this
    }

    /// The options as (name, value) pairs, each name once.
    pub fn as_cups_options(&self) -> (r: Vec<(&str, &str)>)
        ensures
            r@.len() == self@.len(),
            forall|i: int|
                0 <= i < r@.len() ==> self@.contains_key((#[trigger] r@[i]).0@) && self@[r@[i].0@]
                    == r@[i].1@,
            forall|i: int, j: int| 0 <= i < j < r@.len() ==> (#[trigger] r@[i]).0@ != (#[trigger] r@[j]).0@,
            self@.dom().finite(),
            forall|k: Seq<char>|
                #[trigger] self@.contains_key(k) ==> exists|i: int| 0 <= i < r@.len() && (#[trigger] r@[i]).0@ == k,
    {
        let pairs = self.options.pairs();
        proof {
            assert forall|i: int, j: int| 0 <= i < j < pairs@.len() implies (#[trigger] pairs@[i]).0@
                != (#[trigger] pairs@[j]).0@ by {
                let ks = crate::option_map::keys_of(crate::options::pairs_view(pairs@));
                assert(ks[i] == pairs@[i].0@);
                assert(ks[j] == pairs@[j].0@);
            }
        }
        let mut out: Vec<(&str, &str)> = Vec::new();
        let mut i: usize = 0;
        while i < pairs.len()
            invariant
                i <= pairs@.len(),
                out@.len() == i,
                forall|k: int| 0 <= k < i ==> (#[trigger] out@[k]).0@ == pairs@[k].0@ && out@[k].1@ == pairs@[k].1@,
            decreases pairs@.len() - i,
        {
            let entry = &pairs[i];
            out.push((entry.0.as_str(), entry.1.as_str()));
            i = i + 1;
        }
        proof {
            assert forall|i: int, j: int| 0 <= i < j < out@.len() implies (#[trigger] out@[i]).0@
                != (#[trigger] out@[j]).0@ by {
                assert(pairs@[i].0@ != pairs@[j].0@);
            }
            assert forall|i: int| 0 <= i < out@.len() implies self@.contains_key((#[trigger] out@[i]).0@)
                && self@[out@[i].0@] == out@[i].1@ by {
                assert(self@.contains_key(pairs@[i].0@));
            }
            assert forall|k: Seq<char>| #[trigger] self@.contains_key(k) implies exists|i: int|
                0 <= i < out@.len() && (#[trigger] out@[i]).0@ == k by {
                let i = choose|i: int| 0 <= i < pairs@.len() && (#[trigger] pairs@[i]).0@ == k;
                assert(out@[i].0@ == k);
            }
        }
        out
    }

    /// The number of options set.
    pub fn len(&self) -> (r: usize)
        ensures
            r == self@.len(),
    {
        self.options.len()
    }

    /// Whether no option is set.
    pub fn is_empty(&self) -> (r: bool)
        ensures
            r == (self@.len() == 0),
    {
        self.options.is_empty()
    }
}

impl Default for PrintOptions {
    fn default() -> (r: Self)
        ensures
            r@ == Map::<Seq<char>, Seq<char>>::empty(),
    {
        Self::new()
    }
}

/// Color or monochrome output.
#[derive(Debug, Clone, Copy)]
pub enum ColorMode {
    Auto,
    Color,
    Monochrome,
}

impl ColorMode {
    /// The CUPS `print-color-mode` value.
    pub open spec fn value(self) -> Seq<char> {
        match self {
            ColorMode::Auto => PRINT_COLOR_MODE_AUTO@,
            ColorMode::Color => PRINT_COLOR_MODE_COLOR@,
            ColorMode::Monochrome => PRINT_COLOR_MODE_MONOCHROME@,
        }
    }

    pub fn to_string(&self) -> (r: String)
        ensures
            r@ == self.value(),
    {
        match self {
            ColorMode::Auto => String::from_str(PRINT_COLOR_MODE_AUTO),
            ColorMode::Color => String::from_str(PRINT_COLOR_MODE_COLOR),
            ColorMode::Monochrome => String::from_str(PRINT_COLOR_MODE_MONOCHROME),
        }
    }
}

/// Draft, normal or high quality.
#[derive(Debug, Clone, Copy)]
pub enum PrintQuality {
    Draft,
    Normal,
    High,
}

impl PrintQuality {
    /// The CUPS `print-quality` value.
    pub open spec fn value(self) -> Seq<char> {
        match self {
            PrintQuality::Draft => PRINT_QUALITY_DRAFT@,
            PrintQuality::Normal => PRINT_QUALITY_NORMAL@,
            PrintQuality::High => PRINT_QUALITY_HIGH@,
        }
    }

    pub fn to_string(&self) -> (r: String)
        ensures
            r@ == self.value(),
    {
        match self {
            PrintQuality::Draft => String::from_str(PRINT_QUALITY_DRAFT),
            PrintQuality::Normal => String::from_str(PRINT_QUALITY_NORMAL),
            PrintQuality::High => String::from_str(PRINT_QUALITY_HIGH),
        }
    }
}

/// One-sided or two-sided printing.
#[derive(Debug, Clone, Copy)]
pub enum DuplexMode {
    OneSided,
    TwoSidedPortrait,
    TwoSidedLandscape,
}

impl DuplexMode {
    /// The CUPS `sides` value.
    pub open spec fn value(self) -> Seq<char> {
        match self {
            DuplexMode::OneSided => SIDES_ONE_SIDED@,
            DuplexMode::TwoSidedPortrait => SIDES_TWO_SIDED_PORTRAIT@,
            DuplexMode::TwoSidedLandscape => SIDES_TWO_SIDED_LANDSCAPE@,
        }
    }

    pub fn to_string(&self) -> (r: String)
        ensures
            r@ == self.value(),
    {
        match self {
            DuplexMode::OneSided => String::from_str(SIDES_ONE_SIDED),
            DuplexMode::TwoSidedPortrait => String::from_str(SIDES_TWO_SIDED_PORTRAIT),
            DuplexMode::TwoSidedLandscape => String::from_str(SIDES_TWO_SIDED_LANDSCAPE),
        }
    }
}

/// Portrait or landscape pages.
#[derive(Debug, Clone, Copy)]
pub enum Orientation {
    Portrait,
    Landscape,
}

impl Orientation {
    /// The CUPS `orientation-requested` value.
    pub open spec fn value(self) -> Seq<char> {
        match self {
            Orientation::Portrait => ORIENTATION_PORTRAIT@,
            Orientation::Landscape => ORIENTATION_LANDSCAPE@,
        }
    }

    pub fn to_string(&self) -> (r: String)
        ensures
            r@ == self.value(),
    {
        match self {
            Orientation::Portrait => String::from_str(ORIENTATION_PORTRAIT),
            Orientation::Landscape => String::from_str(ORIENTATION_LANDSCAPE),
        }
    }
}

/// Each choice is sent as its own CUPS value (color mode auto, color,
/// monochrome; quality 3, 4, 5; sides one-sided, two-sided-long-edge,
/// two-sided-short-edge; orientation 3, 4), and distinct choices of one kind
/// are sent as distinct values.
pub proof fn lemma_option_values(
    c: ColorMode,
    c2: ColorMode,
    q: PrintQuality,
    q2: PrintQuality,
    d: DuplexMode,
    d2: DuplexMode,
    o: Orientation,
    o2: Orientation,
)
    ensures
        (c.value() == "auto"@) <==> (c is Auto),
        (c.value() == "color"@) <==> (c is Color),
        (c.value() == "monochrome"@) <==> (c is Monochrome),
        c.value() == c2.value() ==> c == c2,
        (q.value() == "3"@) <==> (q is Draft),
        (q.value() == "4"@) <==> (q is Normal),
        (q.value() == "5"@) <==> (q is High),
        q.value() == q2.value() ==> q == q2,
        (d.value() == "one-sided"@) <==> (d is OneSided),
        (d.value() == "two-sided-long-edge"@) <==> (d is TwoSidedPortrait),
        (d.value() == "two-sided-short-edge"@) <==> (d is TwoSidedLandscape),
        d.value() == d2.value() ==> d == d2,
        (o.value() == "3"@) <==> (o is Portrait),
        (o.value() == "4"@) <==> (o is Landscape),
        o.value() == o2.value() ==> o == o2,
{
    reveal_strlit("auto");
    reveal_strlit("color");
    reveal_strlit("monochrome");
    reveal_strlit("3");
    reveal_strlit("4");
    reveal_strlit("5");
    reveal_strlit("one-sided");
    reveal_strlit("two-sided-long-edge");
    reveal_strlit("two-sided-short-edge");
    assert("auto"@[0] != "color"@[0] && "auto"@[0] != "monochrome"@[0]);
    assert("color"@[0] != "monochrome"@[0]);
    assert("3"@[0] != "4"@[0] && "3"@[0] != "5"@[0] && "4"@[0] != "5"@[0]);
    assert("one-sided"@[0] != "two-sided-long-edge"@[0]);
    assert("one-sided"@[0] != "two-sided-short-edge"@[0]);
    assert("two-sided-long-edge"@[10] != "two-sided-short-edge"@[10]);
}

} // verus!
