//! Immutable descriptions of a soda product: name, flavor, size, price
//! and dietary flags, validated at construction and never mutated.

use vstd::prelude::*;
use vstd::string::*;

use crate::money::Money;
use crate::numfmt::dec_digits;
use crate::numfmt::u64_to_string;

verus! {

/// Flavors the machine can carry.
#[derive(Debug, Clone, Copy, PartialEq, Eq, Hash, Structural)]
pub enum SodaFlavor {
    Cola,
    Orange,
    LemonLime,
    RootBeer,
    Grape,
    Cherry,
    Vanilla,
    Strawberry,
    Peach,
    Watermelon,
}

/// Cup sizes, ordered from smallest to largest.
#[derive(Debug, Clone, Copy, PartialEq, Eq, Hash, PartialOrd, Ord, Structural)]
pub enum SodaSize {
    Small,
    Medium,
    Large,
    XLarge,
}

/// Errors from soda construction and updates.
#[derive(Debug, Clone, PartialEq, Eq)]
pub enum SodaError {
    InvalidName(String),
    InvalidPrice,
    InvalidSize,
}

/// The message each soda error renders to.
pub open spec fn soda_error_string(e: SodaError) -> Seq<char> {
    match e {
        SodaError::InvalidName(msg) => "Invalid name: "@ + msg@,
        SodaError::InvalidPrice => "Invalid price"@,
        SodaError::InvalidSize => "Invalid size"@,
    }
}

impl SodaError {
    /// The human-readable message for this error.
    pub fn to_string(&self) -> (s: String)
        ensures
            s@ == soda_error_string(*self),
    {
        match self {
            SodaError::InvalidName(msg) => {
                let mut s = String::from_str("Invalid name: ");
                s.append(msg.as_str());
                s
            },
            SodaError::InvalidPrice => String::from_str("Invalid price"),
            SodaError::InvalidSize => String::from_str("Invalid size"),
        }
    }
}

/// The mathematical content of a soda description.
#[verifier::ext_equal]
pub ghost struct SodaView {
    pub name: Seq<char>,
    pub flavor: SodaFlavor,
    pub size: SodaSize,
    pub price: int,
    pub is_diet: bool,
    pub is_caffeinated: bool,
}

/// A soda product. Two sodas are the "same type" for dispensing when
/// their names and flavors agree, whatever their size, price or flags.
#[derive(Debug, PartialEq, Eq, Hash)]
pub struct Soda {
    name: String,
    flavor: SodaFlavor,
    size: SodaSize,
    price: Money,
    is_diet: bool,
    is_caffeinated: bool,
}

impl View for Soda {
    type V = SodaView;

    closed spec fn view(&self) -> SodaView {
        SodaView {
            name: self.name@,
            flavor: self.flavor,
            size: self.size,
            price: self.price@,
            is_diet: self.is_diet,
            is_caffeinated: self.is_caffeinated,
        }
    }
}

/// A validly constructed soda: non-empty name and non-negative price.
pub open spec fn soda_wf(v: SodaView) -> bool {
    v.name.len() > 0 && v.price >= 0
}

/// "Same type" equivalence: equal name and flavor.
pub open spec fn same_type(a: SodaView, b: SodaView) -> bool {
    a.name == b.name && a.flavor == b.flavor
}

/// Ounce volume of each size.
pub open spec fn size_ounces(s: SodaSize) -> int {
    match s {
        SodaSize::Small => 8,
        SodaSize::Medium => 12,
        SodaSize::Large => 16,
        SodaSize::XLarge => 20,
    }
}

/// What `str::trim` removes from a sequence of characters; opaque here,
/// stated only through the trusted wrapper below.
pub uninterp spec fn trim_of(s: Seq<char>) -> Seq<char>;

/// Relies on `str::trim`: returns the input without leading and trailing
/// whitespace, so the result is never longer than the input and depends
/// on the characters alone.
#[verifier::external_body]
fn trim_str(s: &str) -> (r: &str)
    ensures
        r@ == trim_of(s@),
        r@.len() <= s@.len(),
{
    s.trim()
}

/// What `str::to_lowercase` makes of a sequence of characters; opaque
/// here, stated only through the trusted wrapper below.
pub uninterp spec fn lower_of(s: Seq<char>) -> Seq<char>;

/// Relies on `str::to_lowercase`: the result depends on the characters
/// alone, and an empty input stays empty.
#[verifier::external_body]
fn lowercase(s: &str) -> (r: String)
    ensures
        r@ == lower_of(s@),
        s@.len() == 0 ==> r@.len() == 0,
{
    s.to_lowercase()
}

impl Clone for Soda {
    fn clone(&self) -> (r: Soda)
        ensures
            r == *self,
    {
        Soda {
            name: self.name.clone(),
            flavor: self.flavor,
            size: self.size,
            price: self.price,
            is_diet: self.is_diet,
            is_caffeinated: self.is_caffeinated,
        }
    }
}

impl Soda {
    /// Builds a soda, trimming the name and rejecting an empty trimmed
    /// name or a negative price.
    pub fn new(
        name: String,
        flavor: SodaFlavor,
        size: SodaSize,
        price: Money,
        is_diet: bool,
        is_caffeinated: bool,
    ) -> (r: Result<Soda, SodaError>)
        ensures
            trim_of(name@).len() == 0 ==> (r matches Err(SodaError::InvalidName(m)) && m@
                == "Soda name cannot be empty"@),
            trim_of(name@).len() > 0 && price@ < 0 ==> r == Err::<Soda, SodaError>(
                SodaError::InvalidPrice,
            ),
            trim_of(name@).len() > 0 && price@ >= 0 ==> (r matches Ok(s) && s@ == (SodaView {
                name: trim_of(name@),
                flavor,
                size,
                price: price@,
                is_diet,
                is_caffeinated,
            }) && soda_wf(s@)),
    {
        let trimmed = trim_str(name.as_str());
        if trimmed.is_empty() {
            return Err(SodaError::InvalidName("Soda name cannot be empty".to_owned()));
        }
        if price.is_negative() {
            return Err(SodaError::InvalidPrice);
        }
        Ok(
            Soda {
                name: String::from_str(trimmed),
                flavor,
                size,
                price,
                is_diet,
                is_caffeinated,
            },
        )
    }

    /// Builds a soda from parts already known to be valid; used inside
    /// the crate where validity is proved rather than checked.
    pub(crate) fn from_parts(
        name: String,
        flavor: SodaFlavor,
        size: SodaSize,
        price: Money,
        is_diet: bool,
        is_caffeinated: bool,
    ) -> (r: Soda)
        requires
            name@.len() > 0,
            price@ >= 0,
        ensures
            r@ == (SodaView {
                name: name@,
                flavor,
                size,
                price: price@,
                is_diet,
                is_caffeinated,
            }),
            soda_wf(r@),
    {
        Soda { name, flavor, size, price, is_diet, is_caffeinated }
    }

    /// The trimmed product name.
    pub fn name(&self) -> (r: &str)
        ensures
            r@ == self@.name,
    {
        self.name.as_str()
    }

    /// The flavor.
    pub fn flavor(&self) -> (r: SodaFlavor)
        ensures
            r == self@.flavor,
    {
        self.flavor
    }

    /// The size.
    pub fn size(&self) -> (r: SodaSize)
        ensures
            r == self@.size,
    {
        self.size
    }

    /// The price.
    pub fn price(&self) -> (r: Money)
        ensures
            r@ == self@.price,
    {
        self.price
    }

    /// Whether the soda is diet.
    pub fn is_diet(&self) -> (r: bool)
        ensures
            r == self@.is_diet,
    {
        self.is_diet
    }

    /// Whether the soda is caffeinated.
    pub fn is_caffeinated(&self) -> (r: bool)
        ensures
            r == self@.is_caffeinated,
    {
        self.is_caffeinated
    }

    /// The ounce volume of this soda's size.
    pub fn volume_ounces(&self) -> (r: u8)
        ensures
            r == size_ounces(self@.size),
    {
        match self.size {
            SodaSize::Small => 8,
            SodaSize::Medium => 12,
            SodaSize::Large => 16,
            SodaSize::XLarge => 20,
        }
    }

    /// A copy of this soda with a different price; rejects a negative one.
    pub fn with_price(self, new_price: Money) -> (r: Result<Soda, SodaError>)
        ensures
            new_price@ < 0 ==> r == Err::<Soda, SodaError>(SodaError::InvalidPrice),
            new_price@ >= 0 ==> (r matches Ok(s) && s@ == (SodaView { price: new_price@, ..self@ })),
    {
        if new_price.is_negative() {
            return Err(SodaError::InvalidPrice);
        }
        Ok(
            Soda {
                name: self.name,
                flavor: self.flavor,
                size: self.size,
                price: new_price,
                is_diet: self.is_diet,
                is_caffeinated: self.is_caffeinated,
            },
        )
    }

    /// "Same type" test: equal name and flavor, ignoring everything else.
    pub fn is_same_type(&self, other: &Soda) -> (r: bool)
        ensures
            r == same_type(self@, other@),
    {
        self.name == other.name && self.flavor == other.flavor
    }

    /// A human-readable description such as
    /// "Diet Cola Cola - 12 oz (Caffeinated)".
    pub fn description(&self) -> (s: String)
        ensures
            s@ == soda_description(self@),
    {
        let mut s = String::new();
        if self.is_diet {
            s.append("Diet ");
        }
        s.append(self.name.as_str());
        s.append(" ");
        let fs = self.flavor.to_string();
        s.append(fs.as_str());
        s.append(" - ");
        let vs = u64_to_string(self.volume_ounces() as u64);
        s.append(vs.as_str());
        s.append(" oz");
        if self.is_caffeinated {
            s.append(" (Caffeinated)");
        } else {
            s.append(" (Caffeine-free)");
        }
        proof {
            assert(s@ =~= soda_description(self@));
        }
        s
    }
}

/// The rendering `description` produces.
pub open spec fn soda_description(v: SodaView) -> Seq<char> {
    (if v.is_diet {
        "Diet "@
    } else {
        Seq::<char>::empty()
    }) + v.name + " "@ + flavor_string(v.flavor) + " - "@ + dec_digits(
        size_ounces(v.size) as nat,
    ) + " oz"@ + (if v.is_caffeinated {
        " (Caffeinated)"@
    } else {
        " (Caffeine-free)"@
    })
}

/// The rendering `SodaFlavor::to_string` produces.
pub open spec fn flavor_string(f: SodaFlavor) -> Seq<char> {
    match f {
        SodaFlavor::Cola => "Cola"@,
        SodaFlavor::Orange => "Orange"@,
        SodaFlavor::LemonLime => "Lemon-Lime"@,
        SodaFlavor::RootBeer => "Root Beer"@,
        SodaFlavor::Grape => "Grape"@,
        SodaFlavor::Cherry => "Cherry"@,
        SodaFlavor::Vanilla => "Vanilla"@,
        SodaFlavor::Strawberry => "Strawberry"@,
        SodaFlavor::Peach => "Peach"@,
        SodaFlavor::Watermelon => "Watermelon"@,
    }
}

/// Which flavor a lowercased spelling names, if any.
pub open spec fn flavor_from_lower(t: Seq<char>) -> Option<SodaFlavor> {
    if t == "cola"@ {
        Some(SodaFlavor::Cola)
    } else if t == "orange"@ {
        Some(SodaFlavor::Orange)
    } else if t == "lemon-lime"@ || t == "lemonlime"@ {
        Some(SodaFlavor::LemonLime)
    } else if t == "root beer"@ || t == "rootbeer"@ {
        Some(SodaFlavor::RootBeer)
    } else if t == "grape"@ {
        Some(SodaFlavor::Grape)
    } else if t == "cherry"@ {
        Some(SodaFlavor::Cherry)
    } else if t == "vanilla"@ {
        Some(SodaFlavor::Vanilla)
    } else if t == "strawberry"@ {
        Some(SodaFlavor::Strawberry)
    } else if t == "peach"@ {
        Some(SodaFlavor::Peach)
    } else if t == "watermelon"@ {
        Some(SodaFlavor::Watermelon)
    } else {
        None
    }
}

fn str_matches(s: &String, lit: &str) -> (r: bool)
    ensures
        r == (s@ == lit@),
{
    *s == String::from_str(lit)
}

impl SodaFlavor {
    /// A human-readable spelling of the flavor.
    pub fn to_string(&self) -> (r: String)
        ensures
            r@ == flavor_string(*self),
    {
        match self {
            SodaFlavor::Cola => String::from_str("Cola"),
            SodaFlavor::Orange => String::from_str("Orange"),
            SodaFlavor::LemonLime => String::from_str("Lemon-Lime"),
            SodaFlavor::RootBeer => String::from_str("Root Beer"),
            SodaFlavor::Grape => String::from_str("Grape"),
            SodaFlavor::Cherry => String::from_str("Cherry"),
            SodaFlavor::Vanilla => String::from_str("Vanilla"),
            SodaFlavor::Strawberry => String::from_str("Strawberry"),
            SodaFlavor::Peach => String::from_str("Peach"),
            SodaFlavor::Watermelon => String::from_str("Watermelon"),
        }
    }

    /// Parses a flavor from a spelling, ignoring letter case.
    pub fn from_string(s: &str) -> (r: Option<SodaFlavor>)
        ensures
            r == flavor_from_lower(lower_of(s@)),
    {
        let low = lowercase(s);
        if str_matches(&low, "cola") {
            Some(SodaFlavor::Cola)
        } else if str_matches(&low, "orange") {
            Some(SodaFlavor::Orange)
        } else if str_matches(&low, "lemon-lime") || str_matches(&low, "lemonlime") {
            Some(SodaFlavor::LemonLime)
        } else if str_matches(&low, "root beer") || str_matches(&low, "rootbeer") {
            Some(SodaFlavor::RootBeer)
        } else if str_matches(&low, "grape") {
            Some(SodaFlavor::Grape)
        } else if str_matches(&low, "cherry") {
            Some(SodaFlavor::Cherry)
        } else if str_matches(&low, "vanilla") {
            Some(SodaFlavor::Vanilla)
        } else if str_matches(&low, "strawberry") {
            Some(SodaFlavor::Strawberry)
        } else if str_matches(&low, "peach") {
            Some(SodaFlavor::Peach)
        } else if str_matches(&low, "watermelon") {
            Some(SodaFlavor::Watermelon)
        } else {
            None
        }
    }
}

/// The rendering `SodaSize::to_string` produces.
pub open spec fn size_string(s: SodaSize) -> Seq<char> {
    match s {
        SodaSize::Small => "Small (8 oz)"@,
        SodaSize::Medium => "Medium (12 oz)"@,
        SodaSize::Large => "Large (16 oz)"@,
        SodaSize::XLarge => "X-Large (20 oz)"@,
    }
}

/// Which size a lowercased spelling names, if any.
pub open spec fn size_from_lower(t: Seq<char>) -> Option<SodaSize> {
    if t == "small"@ || t == "s"@ {
        Some(SodaSize::Small)
    } else if t == "medium"@ || t == "m"@ {
        Some(SodaSize::Medium)
    } else if t == "large"@ || t == "l"@ {
        Some(SodaSize::Large)
    } else if t == "x-large"@ || t == "xlarge"@ || t == "xl"@ {
        Some(SodaSize::XLarge)
    } else {
        None
    }
}

impl SodaSize {
    /// A human-readable spelling of the size with its volume.
    pub fn to_string(&self) -> (r: String)
        ensures
            r@ == size_string(*self),
    {
        match self {
            SodaSize::Small => String::from_str("Small (8 oz)"),
            SodaSize::Medium => String::from_str("Medium (12 oz)"),
            SodaSize::Large => String::from_str("Large (16 oz)"),
            SodaSize::XLarge => String::from_str("X-Large (20 oz)"),
        }
    }

    /// Parses a size from a spelling, ignoring letter case.
    pub fn from_string(s: &str) -> (r: Option<SodaSize>)
        ensures
            r == size_from_lower(lower_of(s@)),
    {
        let low = lowercase(s);
        if str_matches(&low, "small") || str_matches(&low, "s") {
            Some(SodaSize::Small)
        } else if str_matches(&low, "medium") || str_matches(&low, "m") {
            Some(SodaSize::Medium)
        } else if str_matches(&low, "large") || str_matches(&low, "l") {
            Some(SodaSize::Large)
        } else if str_matches(&low, "x-large") || str_matches(&low, "xlarge") || str_matches(
            &low,
            "xl",
        ) {
            Some(SodaSize::XLarge)
        } else {
            None
        }
    }

    /// The ounce volume of the size.
    pub fn volume_ounces(&self) -> (r: u8)
        ensures
            r == size_ounces(*self),
    {
        match self {
            SodaSize::Small => 8,
            SodaSize::Medium => 12,
            SodaSize::Large => 16,
            SodaSize::XLarge => 20,
        }
    }
}

} // verus!
