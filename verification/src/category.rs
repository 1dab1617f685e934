//! The categories of the index: six categories, each with subcategories,
//! identified on the index by the numbers 10-14, 20-22, 30-33, 40-44, 50-52
//! and 60-62.

use vstd::prelude::*;
use crate::text::{concat};

verus! {

/// The long name of a subcategory.
pub trait FancySubCategory {
    spec fn fancy_spec(&self) -> Seq<char>;

    fn fancy(&self) -> (r: String)
        ensures
            r@ == self.fancy_spec(),
    ;
}

/// The subcategories of Anime.
#[derive(Debug, Clone, Copy, PartialEq, Eq, Structural)]
pub enum AnimeSubCategory {
    Anime,
    AnimeMusicVideo,
    EnglishTranslated,
    NonEnglishTranslated,
    Raw,
}

/// The subcategories of Audio.
#[derive(Debug, Clone, Copy, PartialEq, Eq, Structural)]
pub enum AudioSubCategory {
    Audio,
    Lossless,
    Lossy,
}

/// The subcategories of Literature.
#[derive(Debug, Clone, Copy, PartialEq, Eq, Structural)]
pub enum LiteratureSubCategory {
    Literature,
    EnglishTranslated,
    NonEnglishTranslated,
    Raw,
}

/// The subcategories of Live Action.
#[derive(Debug, Clone, Copy, PartialEq, Eq, Structural)]
pub enum LiveActionSubCategory {
    LiveAction,
    EnglishTranslated,
    IdolPromotionalVideo,
    NonEnglishTranslated,
    Raw,
}

/// The subcategories of Pictures.
#[derive(Debug, Clone, Copy, PartialEq, Eq, Structural)]
pub enum PicturesSubCategory {
    Pictures,
    Graphics,
    Photos,
}

/// The subcategories of Software.
#[derive(Debug, Clone, Copy, PartialEq, Eq, Structural)]
pub enum SoftwareSubCategory {
    Software,
    Applications,
    Games,
}

/// A category of the index together with its subcategory.
#[derive(Debug, Clone, Copy, PartialEq, Eq, Structural)]
pub enum Category {
    Anime(AnimeSubCategory),
    Audio(AudioSubCategory),
    Literature(LiteratureSubCategory),
    LiveAction(LiveActionSubCategory),
    Pictures(PicturesSubCategory),
    Software(SoftwareSubCategory),
}

/// The number that the index gives a category and subcategory.
pub open spec fn category_id(c: Category) -> u8 {
    match c {
        Category::Anime(s) => match s {
            AnimeSubCategory::Anime => 10,
            AnimeSubCategory::AnimeMusicVideo => 11,
            AnimeSubCategory::EnglishTranslated => 12,
            AnimeSubCategory::NonEnglishTranslated => 13,
            AnimeSubCategory::Raw => 14,
        },
        Category::Audio(s) => match s {
            AudioSubCategory::Audio => 20,
            AudioSubCategory::Lossless => 21,
            AudioSubCategory::Lossy => 22,
        },
        Category::Literature(s) => match s {
            LiteratureSubCategory::Literature => 30,
            LiteratureSubCategory::EnglishTranslated => 31,
            LiteratureSubCategory::NonEnglishTranslated => 32,
            LiteratureSubCategory::Raw => 33,
        },
        Category::LiveAction(s) => match s {
            LiveActionSubCategory::LiveAction => 40,
            LiveActionSubCategory::EnglishTranslated => 41,
            LiveActionSubCategory::IdolPromotionalVideo => 42,
            LiveActionSubCategory::NonEnglishTranslated => 43,
            LiveActionSubCategory::Raw => 44,
        },
        Category::Pictures(s) => match s {
            PicturesSubCategory::Pictures => 50,
            PicturesSubCategory::Graphics => 51,
            PicturesSubCategory::Photos => 52,
        },
        Category::Software(s) => match s {
            SoftwareSubCategory::Software => 60,
            SoftwareSubCategory::Applications => 61,
            SoftwareSubCategory::Games => 62,
        },
    }
}

/// The numbers of all categories, in ascending order.
pub open spec fn all_category_ids() -> Seq<u8> {
    seq![
        10u8, 11, 12, 13, 14, 20, 21, 22, 30, 31, 32, 33, 40, 41, 42, 43, 44, 50, 51, 52, 60, 61, 62,
    ]
}

/// The numbers that denote a category.
pub open spec fn is_category_id(n: u8) -> bool {
    (10 <= n <= 14) || (20 <= n <= 22) || (30 <= n <= 33) || (40 <= n <= 44) || (50 <= n <= 52) || (
    60 <= n <= 62)
}

/// The short name of a category (its display form).
pub open spec fn category_name(c: Category) -> Seq<char> {
    match c {
        Category::Anime(_) => "Anime"@,
        Category::Audio(_) => "Audio"@,
        Category::Literature(_) => "Literature"@,
        Category::LiveAction(_) => "Live Action"@,
        Category::Pictures(_) => "Pictures"@,
        Category::Software(_) => "Software"@,
    }
}

/// The short name of a subcategory (its display form).
pub open spec fn subcategory_name(c: Category) -> Seq<char> {
    match c {
        Category::Anime(s) => match s {
            AnimeSubCategory::Anime => "Anime"@,
            AnimeSubCategory::AnimeMusicVideo => "AMV"@,
            AnimeSubCategory::EnglishTranslated => "English"@,
            AnimeSubCategory::NonEnglishTranslated => "Non-English"@,
            AnimeSubCategory::Raw => "Raw"@,
        },
        Category::Audio(s) => match s {
            AudioSubCategory::Audio => "Audio"@,
            AudioSubCategory::Lossless => "Lossless"@,
            AudioSubCategory::Lossy => "Lossy"@,
        },
        Category::Literature(s) => match s {
            LiteratureSubCategory::Literature => "Literature"@,
            LiteratureSubCategory::EnglishTranslated => "English"@,
            LiteratureSubCategory::NonEnglishTranslated => "Non-English"@,
            LiteratureSubCategory::Raw => "Raw"@,
        },
        Category::LiveAction(s) => match s {
            LiveActionSubCategory::LiveAction => "Live Action"@,
            LiveActionSubCategory::EnglishTranslated => "English"@,
            LiveActionSubCategory::IdolPromotionalVideo => "Idol/PV"@,
            LiveActionSubCategory::NonEnglishTranslated => "Non-English"@,
            LiveActionSubCategory::Raw => "Raw"@,
        },
        Category::Pictures(s) => match s {
            PicturesSubCategory::Pictures => "Pictures"@,
            PicturesSubCategory::Graphics => "Graphics"@,
            PicturesSubCategory::Photos => "Photos"@,
        },
        Category::Software(s) => match s {
            SoftwareSubCategory::Software => "Software"@,
            SoftwareSubCategory::Applications => "Apps"@,
            SoftwareSubCategory::Games => "Games"@,
        },
    }
}

/// The long name of a subcategory.
pub open spec fn subcategory_fancy(c: Category) -> Seq<char> {
    match c {
        Category::Anime(s) => match s {
            AnimeSubCategory::Anime => "Anime"@,
            AnimeSubCategory::AnimeMusicVideo => "Anime Music Video"@,
            AnimeSubCategory::EnglishTranslated => "English-translated"@,
            AnimeSubCategory::NonEnglishTranslated => "Non-English-translated"@,
            AnimeSubCategory::Raw => "Raw"@,
        },
        Category::Audio(s) => match s {
            AudioSubCategory::Audio => "Audio"@,
            AudioSubCategory::Lossless => "Lossless"@,
            AudioSubCategory::Lossy => "Lossy"@,
        },
        Category::Literature(s) => match s {
            LiteratureSubCategory::Literature => "Literature"@,
            LiteratureSubCategory::EnglishTranslated => "English-translated"@,
            LiteratureSubCategory::NonEnglishTranslated => "Non-English-translated"@,
            LiteratureSubCategory::Raw => "Raw"@,
        },
        Category::LiveAction(s) => match s {
            LiveActionSubCategory::LiveAction => "Live Action"@,
            LiveActionSubCategory::EnglishTranslated => "English-translated"@,
            LiveActionSubCategory::IdolPromotionalVideo => "Idol/Promotional Video"@,
            LiveActionSubCategory::NonEnglishTranslated => "Non-English-translated"@,
            LiveActionSubCategory::Raw => "Raw"@,
        },
        Category::Pictures(s) => match s {
            PicturesSubCategory::Pictures => "Pictures"@,
            PicturesSubCategory::Graphics => "Graphics"@,
            PicturesSubCategory::Photos => "Photos"@,
        },
        Category::Software(s) => match s {
            SoftwareSubCategory::Software => "Software"@,
            SoftwareSubCategory::Applications => "Applications"@,
            SoftwareSubCategory::Games => "Games"@,
        },
    }
}

/// The category that a number denotes, if any.
pub open spec fn category_from_id(n: u8) -> Option<Category> {
    if n == 10 {
        Some(Category::Anime(AnimeSubCategory::Anime))
    } else if n == 11 {
        Some(Category::Anime(AnimeSubCategory::AnimeMusicVideo))
    } else if n == 12 {
        Some(Category::Anime(AnimeSubCategory::EnglishTranslated))
    } else if n == 13 {
        Some(Category::Anime(AnimeSubCategory::NonEnglishTranslated))
    } else if n == 14 {
        Some(Category::Anime(AnimeSubCategory::Raw))
    } else if n == 20 {
        Some(Category::Audio(AudioSubCategory::Audio))
    } else if n == 21 {
        Some(Category::Audio(AudioSubCategory::Lossless))
    } else if n == 22 {
        Some(Category::Audio(AudioSubCategory::Lossy))
    } else if n == 30 {
        Some(Category::Literature(LiteratureSubCategory::Literature))
    } else if n == 31 {
        Some(Category::Literature(LiteratureSubCategory::EnglishTranslated))
    } else if n == 32 {
        Some(Category::Literature(LiteratureSubCategory::NonEnglishTranslated))
    } else if n == 33 {
        Some(Category::Literature(LiteratureSubCategory::Raw))
    } else if n == 40 {
        Some(Category::LiveAction(LiveActionSubCategory::LiveAction))
    } else if n == 41 {
        Some(Category::LiveAction(LiveActionSubCategory::EnglishTranslated))
    } else if n == 42 {
        Some(Category::LiveAction(LiveActionSubCategory::IdolPromotionalVideo))
    } else if n == 43 {
        Some(Category::LiveAction(LiveActionSubCategory::NonEnglishTranslated))
    } else if n == 44 {
        Some(Category::LiveAction(LiveActionSubCategory::Raw))
    } else if n == 50 {
        Some(Category::Pictures(PicturesSubCategory::Pictures))
    } else if n == 51 {
        Some(Category::Pictures(PicturesSubCategory::Graphics))
    } else if n == 52 {
        Some(Category::Pictures(PicturesSubCategory::Photos))
    } else if n == 60 {
        Some(Category::Software(SoftwareSubCategory::Software))
    } else if n == 61 {
        Some(Category::Software(SoftwareSubCategory::Applications))
    } else if n == 62 {
        Some(Category::Software(SoftwareSubCategory::Games))
    } else {
        None
    }
}

/// The number of a category identifies it: reading it back gives the same
/// category, and the numbers that read back are exactly the category numbers.
pub proof fn lemma_category_id_roundtrip(c: Category, n: u8)
    ensures
        category_from_id(category_id(c)) == Some(c),
        category_from_id(n) is Some <==> is_category_id(n),
        category_from_id(n) matches Some(d) ==> category_id(d) == n,
        is_category_id(n) <==> all_category_ids().contains(n),
{
    let ids = all_category_ids();
    if is_category_id(n) {
        let k: int = if n <= 14 {
            n - 10
        } else if n <= 22 {
            n - 20 + 5
        } else if n <= 33 {
            n - 30 + 8
        } else if n <= 44 {
            n - 40 + 12
        } else if n <= 52 {
            n - 50 + 17
        } else {
            n - 60 + 20
        };
        assert(ids[k] == n);
    }
    if ids.contains(n) {
        let k = choose|k: int| 0 <= k < ids.len() && ids[k] == n;
        assert(is_category_id(ids[k]));
    }
}

/// A subcategory's number, name and long name.
#[derive(Debug, Clone)]
pub struct SubCategoryInfo {
    pub id: u8,
    pub name: String,
    pub fancy: String,
}

impl Category {
    /// The category with the given number, if the number denotes one.
    pub fn from_u8(n: u8) -> (r: Option<Category>)
        ensures
            r == category_from_id(n),
    {
        match n {
            10 => Some(Category::Anime(AnimeSubCategory::Anime)),
            11 => Some(Category::Anime(AnimeSubCategory::AnimeMusicVideo)),
            12 => Some(Category::Anime(AnimeSubCategory::EnglishTranslated)),
            13 => Some(Category::Anime(AnimeSubCategory::NonEnglishTranslated)),
            14 => Some(Category::Anime(AnimeSubCategory::Raw)),
            20 => Some(Category::Audio(AudioSubCategory::Audio)),
            21 => Some(Category::Audio(AudioSubCategory::Lossless)),
            22 => Some(Category::Audio(AudioSubCategory::Lossy)),
            30 => Some(Category::Literature(LiteratureSubCategory::Literature)),
            31 => Some(Category::Literature(LiteratureSubCategory::EnglishTranslated)),
            32 => Some(Category::Literature(LiteratureSubCategory::NonEnglishTranslated)),
            33 => Some(Category::Literature(LiteratureSubCategory::Raw)),
            40 => Some(Category::LiveAction(LiveActionSubCategory::LiveAction)),
            41 => Some(Category::LiveAction(LiveActionSubCategory::EnglishTranslated)),
            42 => Some(Category::LiveAction(LiveActionSubCategory::IdolPromotionalVideo)),
            43 => Some(Category::LiveAction(LiveActionSubCategory::NonEnglishTranslated)),
            44 => Some(Category::LiveAction(LiveActionSubCategory::Raw)),
            50 => Some(Category::Pictures(PicturesSubCategory::Pictures)),
            51 => Some(Category::Pictures(PicturesSubCategory::Graphics)),
            52 => Some(Category::Pictures(PicturesSubCategory::Photos)),
            60 => Some(Category::Software(SoftwareSubCategory::Software)),
            61 => Some(Category::Software(SoftwareSubCategory::Applications)),
            62 => Some(Category::Software(SoftwareSubCategory::Games)),
            _ => None,
        }
    }

    /// The category's number.
    pub fn get(&self) -> (r: u8)
        ensures
            r == category_id(*self),
    {
        match self {
            Category::Anime(s) => s.get(),
            Category::Audio(s) => s.get(),
            Category::Literature(s) => s.get(),
            Category::LiveAction(s) => s.get(),
            Category::Pictures(s) => s.get(),
            Category::Software(s) => s.get(),
        }
    }

    /// The category's short name.
    pub fn name(&self) -> (r: &'static str)
        ensures
            r@ == category_name(*self),
    {
        match self {
            Category::Anime(_) => "Anime",
            Category::Audio(_) => "Audio",
            Category::Literature(_) => "Literature",
            Category::LiveAction(_) => "Live Action",
            Category::Pictures(_) => "Pictures",
            Category::Software(_) => "Software",
        }
    }

    /// The subcategory's short name.
    pub fn subcategory_name(&self) -> (r: &'static str)
        ensures
            r@ == subcategory_name(*self),
    {
        match self {
            Category::Anime(s) => s.name(),
            Category::Audio(s) => s.name(),
            Category::Literature(s) => s.name(),
            Category::LiveAction(s) => s.name(),
            Category::Pictures(s) => s.name(),
            Category::Software(s) => s.name(),
        }
    }

    /// The subcategory: its number, short name and long name.
    pub fn subcategory(&self) -> (r: SubCategoryInfo)
        ensures
            r.id == category_id(*self),
            r.name@ == subcategory_name(*self),
            r.fancy@ == subcategory_fancy(*self),
    {
        let fancy = match self {
            Category::Anime(s) => s.fancy(),
            Category::Audio(s) => s.fancy(),
            Category::Literature(s) => s.fancy(),
            Category::LiveAction(s) => s.fancy(),
            Category::Pictures(s) => s.fancy(),
            Category::Software(s) => s.fancy(),
        };
        SubCategoryInfo { id: self.get(), name: self.subcategory_name().to_string(), fancy }
    }

    /// "Category - long subcategory name".
    pub fn fancy(&self) -> (r: String)
        ensures
            r@ == category_name(*self) + " - "@ + subcategory_fancy(*self),
    {
        let sub = self.subcategory();
        let head = concat(self.name(), " - ");
        concat(head.as_str(), sub.fancy.as_str())
    }

    /// "Category - subcategory", or just "Category" where the subcategory
    /// bears the category's own name.
    pub fn normal(&self) -> (r: String)
        ensures
            r@ == (if subcategory_name(*self) == category_name(*self) {
                category_name(*self)
            } else {
                category_name(*self) + " - "@ + subcategory_name(*self)
            }),
    {
        let name = self.name();
        let sub = self.subcategory_name();
        let head = concat(name, " - ");
        let result = concat(head.as_str(), sub);
        let same = concat(head.as_str(), name);
        if crate::text::str_eq(result.as_str(), same.as_str()) {
            assert(head@ + sub@ == head@ + name@);
            assert(sub@ =~= (head@ + sub@).skip(head@.len() as int));
            assert(name@ =~= (head@ + name@).skip(head@.len() as int));
            name.to_string()
        } else {
            assert(sub@ != name@);
            result
        }
    }

    /// All categories, in ascending order of their numbers.
    pub fn all() -> (r: Vec<Category>)
        ensures
            r@.map_values(|c: Category| category_id(c)) == all_category_ids(),
    {
        let mut result: Vec<Category> = Vec::new();
        let ids: [u8; 23] = [
            10, 11, 12, 13, 14, 20, 21, 22, 30, 31, 32, 33, 40, 41, 42, 43, 44, 50, 51, 52, 60, 61, 62,
        ];
        assert(ids@ == all_category_ids());
        let mut k: usize = 0;
        while k < 23
            invariant
                0 <= k <= 23,
                ids@ == all_category_ids(),
                result@.map_values(|c: Category| category_id(c)) == ids@.take(k as int),
            decreases 23 - k,
        {
            let id = ids[k];
            proof {
                lemma_category_id_roundtrip(Category::Anime(AnimeSubCategory::Anime), id);
                assert(all_category_ids().contains(id));
            }
            match Category::from_u8(id) {
                Some(c) => {
                    let ghost before = result@.map_values(|c: Category| category_id(c));
                    result.push(c);
                    assert(result@.map_values(|c: Category| category_id(c)) =~= before.push(id));
                    assert(ids@.take(k + 1) =~= ids@.take(k as int).push(id));
                },
                None => {
                    assert(false);
                },
            }
            k = k + 1;
        }
        assert(ids@.take(23) =~= ids@);
        result
    }
}

impl AnimeSubCategory {
    /// The subcategory's number.
    pub fn get(&self) -> (r: u8)
        ensures
            r == category_id(Category::Anime(*self)),
    {
        match self {
            AnimeSubCategory::Anime => 10,
            AnimeSubCategory::AnimeMusicVideo => 11,
            AnimeSubCategory::EnglishTranslated => 12,
            AnimeSubCategory::NonEnglishTranslated => 13,
            AnimeSubCategory::Raw => 14,
        }
    }

    /// The subcategory's short name.
    pub fn name(&self) -> (r: &'static str)
        ensures
            r@ == subcategory_name(Category::Anime(*self)),
    {
        match self {
            AnimeSubCategory::Anime => "Anime",
            AnimeSubCategory::AnimeMusicVideo => "AMV",
            AnimeSubCategory::EnglishTranslated => "English",
            AnimeSubCategory::NonEnglishTranslated => "Non-English",
            AnimeSubCategory::Raw => "Raw",
        }
    }
}

impl FancySubCategory for AnimeSubCategory {
    open spec fn fancy_spec(&self) -> Seq<char> {
        subcategory_fancy(Category::Anime(*self))
    }

    fn fancy(&self) -> (r: String) {
        match self {
            AnimeSubCategory::Anime => "Anime",
            AnimeSubCategory::AnimeMusicVideo => "Anime Music Video",
            AnimeSubCategory::EnglishTranslated => "English-translated",
            AnimeSubCategory::NonEnglishTranslated => "Non-English-translated",
            AnimeSubCategory::Raw => "Raw",
        }.to_string()
    }
}

impl AudioSubCategory {
    /// The subcategory's number.
    pub fn get(&self) -> (r: u8)
        ensures
            r == category_id(Category::Audio(*self)),
    {
        match self {
            AudioSubCategory::Audio => 20,
            AudioSubCategory::Lossless => 21,
            AudioSubCategory::Lossy => 22,
        }
    }

    /// The subcategory's short name.
    pub fn name(&self) -> (r: &'static str)
        ensures
            r@ == subcategory_name(Category::Audio(*self)),
    {
        match self {
            AudioSubCategory::Audio => "Audio",
            AudioSubCategory::Lossless => "Lossless",
            AudioSubCategory::Lossy => "Lossy",
        }
    }
}

impl FancySubCategory for AudioSubCategory {
    open spec fn fancy_spec(&self) -> Seq<char> {
        subcategory_fancy(Category::Audio(*self))
    }

    fn fancy(&self) -> (r: String) {
        self.name().to_string()
    }
}

impl LiteratureSubCategory {
    /// The subcategory's number.
    pub fn get(&self) -> (r: u8)
        ensures
            r == category_id(Category::Literature(*self)),
    {
        match self {
            LiteratureSubCategory::Literature => 30,
            LiteratureSubCategory::EnglishTranslated => 31,
            LiteratureSubCategory::NonEnglishTranslated => 32,
            LiteratureSubCategory::Raw => 33,
        }
    }

    /// The subcategory's short name.
    pub fn name(&self) -> (r: &'static str)
        ensures
            r@ == subcategory_name(Category::Literature(*self)),
    {
        match self {
            LiteratureSubCategory::Literature => "Literature",
            LiteratureSubCategory::EnglishTranslated => "English",
            LiteratureSubCategory::NonEnglishTranslated => "Non-English",
            LiteratureSubCategory::Raw => "Raw",
        }
    }
}

impl FancySubCategory for LiteratureSubCategory {
    open spec fn fancy_spec(&self) -> Seq<char> {
        subcategory_fancy(Category::Literature(*self))
    }

    fn fancy(&self) -> (r: String) {
        match self {
            LiteratureSubCategory::Literature => "Literature",
            LiteratureSubCategory::EnglishTranslated => "English-translated",
            LiteratureSubCategory::NonEnglishTranslated => "Non-English-translated",
            LiteratureSubCategory::Raw => "Raw",
        }.to_string()
    }
}

impl LiveActionSubCategory {
    /// The subcategory's number.
    pub fn get(&self) -> (r: u8)
        ensures
            r == category_id(Category::LiveAction(*self)),
    {
        match self {
            LiveActionSubCategory::LiveAction => 40,
            LiveActionSubCategory::EnglishTranslated => 41,
            LiveActionSubCategory::IdolPromotionalVideo => 42,
            LiveActionSubCategory::NonEnglishTranslated => 43,
            LiveActionSubCategory::Raw => 44,
        }
    }

    /// The subcategory's short name.
    pub fn name(&self) -> (r: &'static str)
        ensures
            r@ == subcategory_name(Category::LiveAction(*self)),
    {
        match self {
            LiveActionSubCategory::LiveAction => "Live Action",
            LiveActionSubCategory::EnglishTranslated => "English",
            LiveActionSubCategory::IdolPromotionalVideo => "Idol/PV",
            LiveActionSubCategory::NonEnglishTranslated => "Non-English",
            LiveActionSubCategory::Raw => "Raw",
        }
    }
}

impl FancySubCategory for LiveActionSubCategory {
    open spec fn fancy_spec(&self) -> Seq<char> {
        subcategory_fancy(Category::LiveAction(*self))
    }

    fn fancy(&self) -> (r: String) {
        match self {
            LiveActionSubCategory::LiveAction => "Live Action",
            LiveActionSubCategory::EnglishTranslated => "English-translated",
            LiveActionSubCategory::IdolPromotionalVideo => "Idol/Promotional Video",
            LiveActionSubCategory::NonEnglishTranslated => "Non-English-translated",
            LiveActionSubCategory::Raw => "Raw",
        }.to_string()
    }
}

impl PicturesSubCategory {
    /// The subcategory's number.
    pub fn get(&self) -> (r: u8)
        ensures
            r == category_id(Category::Pictures(*self)),
    {
        match self {
            PicturesSubCategory::Pictures => 50,
            PicturesSubCategory::Graphics => 51,
            PicturesSubCategory::Photos => 52,
        }
    }

    /// The subcategory's short name.
    pub fn name(&self) -> (r: &'static str)
        ensures
            r@ == subcategory_name(Category::Pictures(*self)),
    {
        match self {
            PicturesSubCategory::Pictures => "Pictures",
            PicturesSubCategory::Graphics => "Graphics",
            PicturesSubCategory::Photos => "Photos",
        }
    }
}

impl FancySubCategory for PicturesSubCategory {
    open spec fn fancy_spec(&self) -> Seq<char> {
        subcategory_fancy(Category::Pictures(*self))
    }

    fn fancy(&self) -> (r: String) {
        self.name().to_string()
    }
}

impl SoftwareSubCategory {
    /// The subcategory's number.
    pub fn get(&self) -> (r: u8)
        ensures
            r == category_id(Category::Software(*self)),
    {
        match self {
            SoftwareSubCategory::Software => 60,
            SoftwareSubCategory::Applications => 61,
            SoftwareSubCategory::Games => 62,
        }
    }

    /// The subcategory's short name.
    pub fn name(&self) -> (r: &'static str)
        ensures
            r@ == subcategory_name(Category::Software(*self)),
    {
        match self {
            SoftwareSubCategory::Software => "Software",
            SoftwareSubCategory::Applications => "Apps",
            SoftwareSubCategory::Games => "Games",
        }
    }
}

impl FancySubCategory for SoftwareSubCategory {
    open spec fn fancy_spec(&self) -> Seq<char> {
        subcategory_fancy(Category::Software(*self))
    }

    fn fancy(&self) -> (r: String) {
        match self {
            SoftwareSubCategory::Software => "Software",
            SoftwareSubCategory::Applications => "Applications",
            SoftwareSubCategory::Games => "Games",
        }.to_string()
    }
}

} // verus!
