//! Taste and display profiles, the drafts that stage a new one, and the
//! capped keyword set of a taste profile.
use vstd::prelude::*;

verus! {

/// The most keywords a taste profile holds.
pub const MAX_KEYWORDS: usize = 10;

/// A stored taste profile: which art to pick.
#[derive(Debug, Clone)]
pub struct TasteProfile {
    pub id: i64,
    pub name: String,
    pub date_start: Option<i64>,
    pub date_end: Option<i64>,
    pub is_public_domain: bool,
    pub keywords: Vec<String>,
}

/// A stored display profile: how to render it.
#[derive(Debug, Clone)]
pub struct DisplayProfile {
    pub id: i64,
    pub name: String,
    pub wallpaper_color: String,
    pub frame_style: String,
    /// `"horizontal"` or `"vertical"`.
    pub orientation: String,
    pub aspect_ratio: String,
}

/// A taste profile being built, before it has an identity.
/// Fields, in order: date start, date end, public domain, keywords, name.
#[derive(Debug, Clone)]
pub struct TasteProfileDraft {
    pub date_start: Option<i64>,
    pub date_end: Option<i64>,
    pub is_public_domain: bool,
    pub keywords: Vec<String>,
    pub name: String,
    pub current_field: usize,
}

/// A display profile being built, before it has an identity.
/// Fields, in order: color, frame, orientation, aspect ratio, name.
#[derive(Debug, Clone)]
pub struct DisplayProfileDraft {
    pub wallpaper_color: String,
    pub frame_style: String,
    pub orientation: String,
    pub aspect_ratio: String,
    pub name: String,
    pub current_field: usize,
}

/// The index of the name field of either kind of draft.
pub const DRAFT_NAME_FIELD: usize = 4;

impl TasteProfileDraft {
    /// A fresh draft: no dates, public domain, no keywords, no name.
    pub open spec fn is_fresh(&self) -> bool {
        &&& self.date_start is None
        &&& self.date_end is None
        &&& self.is_public_domain
        &&& self.keywords@.len() == 0
        &&& self.name@.len() == 0
        &&& self.current_field == 0
    }
}

impl Default for TasteProfileDraft {
    fn default() -> (r: Self)
        ensures
            r.is_fresh(),
    {
        TasteProfileDraft {
            date_start: None,
            date_end: None,
            is_public_domain: true,
            keywords: Vec::new(),
            name: String::new(),
            current_field: 0,
        }
    }
}

pub open spec fn white() -> Seq<char> {
    seq!['#', 'F', 'F', 'F', 'F', 'F', 'F']
}

pub open spec fn sixteen_by_nine() -> Seq<char> {
    seq!['1', '6', ':', '9']
}

impl DisplayProfileDraft {
    /// A fresh draft: white, no frame, horizontal, 16:9, no name.
    pub open spec fn is_fresh(&self) -> bool {
        &&& self.wallpaper_color@ == white()
        &&& self.frame_style@.len() == 0
        &&& self.orientation@ == crate::text::horizontal()
        &&& self.aspect_ratio@ == sixteen_by_nine()
        &&& self.name@.len() == 0
        &&& self.current_field == 0
    }
}

impl Default for DisplayProfileDraft {
    fn default() -> (r: Self)
        ensures
            r.is_fresh(),
    {
        proof {
            reveal_strlit("#FFFFFF");
            reveal_strlit("horizontal");
            reveal_strlit("16:9");
        }
        let r = DisplayProfileDraft {
            wallpaper_color: String::from_str("#FFFFFF"),
            frame_style: String::new(),
            orientation: String::from_str("horizontal"),
            aspect_ratio: String::from_str("16:9"),
            name: String::new(),
            current_field: 0,
        };
        assert(r.wallpaper_color@ =~= white());
        assert(r.orientation@ =~= crate::text::horizontal());
        assert(r.aspect_ratio@ =~= sixteen_by_nine());
        r
    }
}

/// Whether some entry of `s` reads `kw`.
pub open spec fn has_keyword(s: Seq<String>, kw: Seq<char>) -> bool {
    exists|i: int| 0 <= i < s.len() && (#[trigger] s[i])@ == kw
}

/// `s` without the entries that read `kw`, the others in their order.
pub open spec fn without_keyword(s: Seq<String>, kw: Seq<char>) -> Seq<String>
    decreases s.len(),
{
    if s.len() == 0 {
        s
    } else if s.last()@ == kw {
        without_keyword(s.drop_last(), kw)
    } else {
        without_keyword(s.drop_last(), kw).push(s.last())
    }
}

/// A keyword set after toggling `kw`: taken out if present, else added at the
/// end while the set is under its cap, else left as it is.
pub open spec fn toggled_keywords(s: Seq<String>, kw: String) -> Seq<String> {
    if has_keyword(s, kw@) {
        without_keyword(s, kw@)
    } else if s.len() < MAX_KEYWORDS {
        s.push(kw)
    } else {
        s
    }
}

pub fn contains_keyword(list: &Vec<String>, kw: &String) -> (r: bool)
    ensures
        r == has_keyword(list@, kw@),
{
    let mut i: usize = 0;
    while i < list.len()
        invariant
            i <= list@.len(),
            forall|j: int| 0 <= j < i ==> (#[trigger] list@[j])@ != kw@,
        decreases list@.len() - i,
    {
        if list[i].eq(kw) {
            return true;
        }
        i = i + 1;
    }
    false
}

/// Takes every entry that reads `kw` out of `list`.
pub fn remove_keyword(list: &mut Vec<String>, kw: &String)
    ensures
        final(list)@ == without_keyword(old(list)@, kw@),
{
    let mut kept: Vec<String> = Vec::new();
    let mut i: usize = 0;
    while i < list.len()
        invariant
            i <= list@.len(),
            kept@ == without_keyword(list@.subrange(0, i as int), kw@),
        decreases list@.len() - i,
    {
        assert(list@.subrange(0, i + 1).drop_last() =~= list@.subrange(0, i as int));
        if !list[i].eq(kw) {
            kept.push(list[i].clone());
        }
        i = i + 1;
    }
    assert(list@.subrange(0, list@.len() as int) =~= list@);
    *list = kept;
}

/// Toggles `kw` in a keyword set, subject to the cap.
pub fn toggle_keyword_in(list: &mut Vec<String>, kw: &String)
    ensures
        final(list)@ == toggled_keywords(old(list)@, *kw),
{
    if contains_keyword(list, kw) {
        remove_keyword(list, kw);
    } else if list.len() < MAX_KEYWORDS {
        list.push(kw.clone());
    }
}

proof fn lemma_without_shrinks(s: Seq<String>, kw: Seq<char>)
    ensures
        without_keyword(s, kw).len() <= s.len(),
        has_keyword(s, kw) ==> without_keyword(s, kw).len() < s.len(),
        forall|x: Seq<char>| #[trigger] has_keyword(without_keyword(s, kw), x) ==> has_keyword(s, x),
        !has_keyword(without_keyword(s, kw), kw),
    decreases s.len(),
{
    if s.len() > 0 {
        let d = s.drop_last();
        lemma_without_shrinks(d, kw);
        let w = without_keyword(d, kw);
        assert forall|x: Seq<char>| #[trigger] has_keyword(without_keyword(s, kw), x) implies has_keyword(s, x) by {
            let r = without_keyword(s, kw);
            let i = choose|i: int| 0 <= i < r.len() && (#[trigger] r[i])@ == x;
            if i < w.len() {
                assert(r[i] == w[i]);
                assert(has_keyword(w, x));
                let j = choose|j: int| 0 <= j < d.len() && (#[trigger] d[j])@ == x;
                assert(s[j] == d[j]);
            } else {
                assert(r[i] == s.last());
                assert(s[s.len() - 1] == s.last());
            }
        }
        if has_keyword(s, kw) && !has_keyword(d, kw) {
            let i = choose|i: int| 0 <= i < s.len() && (#[trigger] s[i])@ == kw;
            if i < s.len() - 1 {
                assert(d[i] == s[i]);
            }
            assert(s.last() == s[s.len() - 1]);
        }
        assert(!has_keyword(without_keyword(s, kw), kw)) by {
            let r = without_keyword(s, kw);
            if has_keyword(r, kw) {
                let i = choose|i: int| 0 <= i < r.len() && (#[trigger] r[i])@ == kw;
                if i < w.len() {
                    assert(r[i] == w[i]);
                }
            }
        }
    }
}

/// A full keyword set refuses a new keyword; once one of its keywords is
/// toggled off, the same new keyword is taken.
pub proof fn lemma_keyword_cap(s: Seq<String>, kw: String, present: String)
    requires
        s.len() == MAX_KEYWORDS,
        !has_keyword(s, kw@),
        has_keyword(s, present@),
    ensures
        toggled_keywords(s, kw) == s,
        has_keyword(toggled_keywords(toggled_keywords(s, present), kw), kw@),
{
    let t = toggled_keywords(s, present);
    lemma_without_shrinks(s, present@);
    assert(t.len() < MAX_KEYWORDS);
    assert(!has_keyword(t, kw@));
    let u = t.push(kw);
    assert(u[t.len() as int] == kw);
}

} // verus!
