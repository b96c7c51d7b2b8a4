//! The declarative document that describes a work, and the persisted cookie set.
use vstd::prelude::*;
use indexmap::IndexSet;
use crate::model::{AgeRating, ArchiveWarning, FicCategory, FileFormat};
use crate::ordered_set::{ordered_items, ordered_set_new};

verus! {

/// The tag bundle of a work.
#[derive(Debug)]
pub struct FicTags {
    pub rating: AgeRating,
    /// The chosen warnings, each once; empty means no warning is chosen.
    pub warnings: Vec<ArchiveWarning>,
    pub fandoms: IndexSet<String>,
    /// The chosen categories, each once.
    pub categories: Vec<FicCategory>,
    pub relationships: IndexSet<String>,
    pub characters: IndexSet<String>,
    pub other: IndexSet<String>,
}

impl Default for FicTags {
    /// Not rated, the sentinel warning alone, and no other tag.
    fn default() -> (r: Self)
        ensures
            r.rating == AgeRating::NotRated,
            r.warnings@ == seq![ArchiveWarning::CNTUAW],
            ordered_items(r.fandoms).len() == 0,
            r.categories@.len() == 0,
            ordered_items(r.relationships).len() == 0,
            ordered_items(r.characters).len() == 0,
            ordered_items(r.other).len() == 0,
    {
        let mut warnings: Vec<ArchiveWarning> = Vec::new();
        warnings.push(ArchiveWarning::CNTUAW);
        assert(warnings@ =~= seq![ArchiveWarning::CNTUAW]);
        FicTags {
            rating: AgeRating::default_rating(),
            warnings,
            fandoms: ordered_set_new(),
            categories: Vec::new(),
            relationships: ordered_set_new(),
            characters: ordered_set_new(),
            other: ordered_set_new(),
        }
    }
}

/// The preface of a work or of one chapter.
#[derive(Debug)]
pub struct FicDetails {
    pub url: String,
    pub author_pseud: Option<String>,
    pub co_authors: IndexSet<String>,
    pub title: String,
    /// Where the text is, relative to the document.
    pub file: Option<String>,
    pub start_note: Option<String>,
    pub end_note: Option<String>,
    pub summary: Option<String>,
}

impl Default for FicDetails {
    /// Everything empty or absent.
    fn default() -> (r: Self)
        ensures
            r.url@.len() == 0,
            r.author_pseud is None,
            ordered_items(r.co_authors).len() == 0,
            r.title@.len() == 0,
            r.file is None,
            r.start_note is None,
            r.end_note is None,
            r.summary is None,
    {
        FicDetails {
            url: String::new(),
            author_pseud: None,
            co_authors: ordered_set_new(),
            title: String::new(),
            file: None,
            start_note: None,
            end_note: None,
            summary: None,
        }
    }
}

/// How a work is submitted.
#[derive(Debug)]
pub struct FicMeta {
    pub format: FileFormat,
    pub language: String,
    pub challenges: IndexSet<String>,
    pub gift_to: IndexSet<String>,
    pub work_skin: Option<String>,
    pub total_chapters: u64,
    pub in_series: Option<String>,
    pub publication_date: Option<String>,
}

impl Default for FicMeta {
    /// Markdown text, no language, and nothing else set.
    fn default() -> (r: Self)
        ensures
            r.format == FileFormat::Markdown,
            r.language@.len() == 0,
            ordered_items(r.challenges).len() == 0,
            ordered_items(r.gift_to).len() == 0,
            r.work_skin is None,
            r.total_chapters == 0,
            r.in_series is None,
            r.publication_date is None,
    {
        FicMeta {
            format: FileFormat::default_format(),
            language: String::new(),
            challenges: ordered_set_new(),
            gift_to: ordered_set_new(),
            work_skin: None,
            total_chapters: 0,
            in_series: None,
            publication_date: None,
        }
    }
}

/// The work that this one remixes or translates.
#[derive(Debug, Clone)]
pub struct FicRemix {
    pub url: String,
    pub title: String,
    pub author: String,
    pub language: String,
    pub translated: bool,
}

/// One submission: details, tags, metadata, and chapters by identifier.
#[derive(Debug)]
pub struct Fanfiction {
    pub fic: FicDetails,
    pub tags: FicTags,
    pub meta: FicMeta,
    pub remix: Option<FicRemix>,
    /// Chapters by identifier, in increasing order of identifier.
    pub chapters: Vec<(String, FicDetails)>,
}

impl Fanfiction {
    /// The blank document handed to a new author: an untitled work with a
    /// placeholder summary and two empty chapters.
    pub fn template() -> (r: Fanfiction)
        ensures
            r.fic.url@ == ""@,
            r.fic.title@ == "Untitled"@,
            r.fic.file matches Some(f) && f@ == "untitled.md"@,
            r.fic.start_note matches Some(n) && n@ == ""@,
            r.fic.end_note matches Some(n) && n@ == ""@,
            r.fic.summary matches Some(s) && s@ == "Presented without summary"@,
            r.fic.author_pseud is None,
            ordered_items(r.fic.co_authors).len() == 0,
            r.tags.rating == AgeRating::NotRated,
            r.tags.warnings@ == seq![ArchiveWarning::CNTUAW],
            r.meta.format == FileFormat::Markdown,
            r.remix is None,
            r.chapters@.len() == 2,
            r.chapters@[0].0@ == "01"@,
            r.chapters@[1].0@ == "02"@,
            r.chapters@[0].1.title@.len() == 0,
            r.chapters@[1].1.title@.len() == 0,
    {
        let fic = FicDetails {
            url: "".to_owned(),
            author_pseud: None,
            co_authors: ordered_set_new(),
            title: "Untitled".to_owned(),
            file: Some("untitled.md".to_owned()),
            start_note: Some("".to_owned()),
            end_note: Some("".to_owned()),
            summary: Some("Presented without summary".to_owned()),
        };
        let mut chapters: Vec<(String, FicDetails)> = Vec::new();
        chapters.push(("01".to_owned(), FicDetails::default()));
        chapters.push(("02".to_owned(), FicDetails::default()));
        Fanfiction { fic, tags: FicTags::default(), meta: FicMeta::default(), remix: None, chapters }
    }
}

/// The map that a list of name/value pairs makes when a later pair with a
/// name replaces an earlier one.
pub open spec fn pairs_map(s: Seq<(Seq<char>, Seq<char>)>) -> Map<Seq<char>, Seq<char>>
    decreases s.len(),
{
    if s.len() == 0 {
        Map::empty()
    } else {
        pairs_map(s.drop_last()).insert(s.last().0, s.last().1)
    }
}

/// The views of a list of name/value pairs.
pub open spec fn pair_views(v: Seq<(String, String)>) -> Seq<(Seq<char>, Seq<char>)> {
    v.map_values(|p: (String, String)| (p.0@, p.1@))
}

/// No name occurs twice.
pub open spec fn names_unique(s: Seq<(Seq<char>, Seq<char>)>) -> bool {
    forall|i: int, j: int| 0 <= i < j < s.len() ==> s[i].0 != s[j].0
}

/// A session's cookies: each name once, with its value.
#[derive(Debug, Clone)]
pub struct CookieConfig {
    pub cookies: Vec<(String, String)>,
}

impl View for CookieConfig {
    type V = Map<Seq<char>, Seq<char>>;

    open spec fn view(&self) -> Map<Seq<char>, Seq<char>> {
        pairs_map(pair_views(self.cookies@))
    }
}

proof fn lemma_pairs_map_unique(s: Seq<(Seq<char>, Seq<char>)>)
    requires
        names_unique(s),
    ensures
        forall|k: Seq<char>| #[trigger] pairs_map(s).contains_key(k) <==> exists|i: int|
            0 <= i < s.len() && s[i].0 == k,
        forall|i: int| 0 <= i < s.len() ==> pairs_map(s)[#[trigger] s[i].0] == s[i].1,
    decreases s.len(),
{
    if s.len() > 0 {
        let p = s.drop_last();
        assert(names_unique(p));
        lemma_pairs_map_unique(p);
        assert forall|k: Seq<char>| #[trigger] pairs_map(s).contains_key(k) <==> exists|i: int|
            0 <= i < s.len() && s[i].0 == k by {
            if pairs_map(s).contains_key(k) && k != s.last().0 {
                assert(pairs_map(p).contains_key(k));
                let i = choose|i: int| 0 <= i < p.len() && p[i].0 == k;
                assert(s[i].0 == k);
            }
            if exists|i: int| 0 <= i < s.len() && s[i].0 == k {
                let i = choose|i: int| 0 <= i < s.len() && s[i].0 == k;
                if i < p.len() {
                    assert(p[i].0 == k);
                    assert(pairs_map(p).contains_key(k));
                }
            }
        }
        assert forall|i: int| 0 <= i < s.len() implies pairs_map(s)[#[trigger] s[i].0] == s[i].1 by {
            if i < p.len() {
                assert(p[i] == s[i]);
                assert(s[i].0 != s.last().0);
            }
        }
    }
}

proof fn lemma_pairs_map_update(s: Seq<(Seq<char>, Seq<char>)>, k: int, v: Seq<char>)
    requires
        names_unique(s),
        0 <= k < s.len(),
    ensures
        names_unique(s.update(k, (s[k].0, v))),
        pairs_map(s.update(k, (s[k].0, v))) == pairs_map(s).insert(s[k].0, v),
{
    let t = s.update(k, (s[k].0, v));
    assert(names_unique(t));
    lemma_pairs_map_unique(s);
    lemma_pairs_map_unique(t);
    assert forall|n: Seq<char>| #[trigger] pairs_map(t).contains_key(n) <==> pairs_map(s).insert(s[k].0, v).contains_key(n) by {
        if pairs_map(t).contains_key(n) {
            let i = choose|i: int| 0 <= i < t.len() && t[i].0 == n;
            assert(s[i].0 == n);
        }
        if pairs_map(s).contains_key(n) {
            let i = choose|i: int| 0 <= i < s.len() && s[i].0 == n;
            assert(t[i].0 == n);
        }
        if n == s[k].0 {
            assert(t[k].0 == n);
        }
    }
    assert forall|n: Seq<char>| #[trigger] pairs_map(t).contains_key(n) implies pairs_map(t)[n] == pairs_map(s).insert(s[k].0, v)[n] by {
        let i = choose|i: int| 0 <= i < t.len() && t[i].0 == n;
        assert(pairs_map(t)[t[i].0] == t[i].1);
        if i != k {
            assert(pairs_map(s)[s[i].0] == s[i].1);
        }
    }
    assert(pairs_map(t) =~= pairs_map(s).insert(s[k].0, v));
}

impl CookieConfig {
    /// Each name once.
    pub open spec fn wf(&self) -> bool {
        names_unique(pair_views(self.cookies@))
    }

    /// Collects a session's cookies; of two cookies with one name the later wins.
    pub fn new(cookies: Vec<(String, String)>) -> (r: CookieConfig)
        ensures
            r.wf(),
            r@ == pairs_map(pair_views(cookies@)),
    {
        let mut out: Vec<(String, String)> = Vec::new();
        let mut i: usize = 0;
        while i < cookies.len()
            invariant
                i <= cookies.len(),
                names_unique(pair_views(out@)),
                pairs_map(pair_views(out@)) == pairs_map(pair_views(cookies@.subrange(0, i as int))),
            decreases cookies.len() - i,
        {
            let name = cookies[i].0.clone();
            let value = cookies[i].1.clone();
            assert(pair_views(cookies@.subrange(0, i as int + 1)).drop_last() =~= pair_views(cookies@.subrange(0, i as int)));
            let mut j: usize = 0;
            let mut found = false;
            while j < out.len() && !found
                invariant
                    j <= out.len(),
                    found ==> j < out.len() && out@[j as int].0@ == name@,
                    !found ==> forall|k: int| 0 <= k < j ==> out@[k].0@ != name@,
                decreases out.len() - j + (if found { 0int } else { 1int }),
            {
                if out[j].0 == name {
                    found = true;
                } else {
                    j = j + 1;
                }
            }
            let ghost before = pair_views(out@);
            if found {
                proof {
                    lemma_pairs_map_update(before, j as int, value@);
                }
                out.set(j, (name, value));
                assert(pair_views(out@) =~= before.update(j as int, (before[j as int].0, value@)));
            } else {
                out.push((name, value));
                assert(pair_views(out@) =~= before.push((name@, value@)));
                assert(pair_views(out@).drop_last() =~= before);
                assert forall|a: int, b: int| 0 <= a < b < pair_views(out@).len() implies pair_views(out@)[a].0 != pair_views(out@)[b].0 by {
                    if b == before.len() {
                        assert(out@[a].0@ != name@);
                    } else {
                        assert(before[a] == pair_views(out@)[a]);
                        assert(before[b] == pair_views(out@)[b]);
                    }
                }
            }
            i = i + 1;
        }
        assert(cookies@.subrange(0, cookies.len() as int) == cookies@);
        CookieConfig { cookies: out }
    }

    /// The cookies as name/value pairs, to be added to a session.
    pub fn iter(&self) -> (r: Vec<(String, String)>)
        ensures
            pair_views(r@) == pair_views(self.cookies@),
    {
        let mut r: Vec<(String, String)> = Vec::new();
        let mut i: usize = 0;
        while i < self.cookies.len()
            invariant
                i <= self.cookies.len(),
                pair_views(r@) == pair_views(self.cookies@.subrange(0, i as int)),
            decreases self.cookies.len() - i,
        {
            let name = self.cookies[i].0.clone();
            let value = self.cookies[i].1.clone();
            let ghost old_r = r@;
            r.push((name, value));
            assert(self.cookies@.subrange(0, i as int + 1) == self.cookies@.subrange(0, i as int).push(self.cookies@[i as int]));
            assert(r@ == old_r.push((name, value)));
            assert(pair_views(r@) =~= pair_views(old_r).push((name@, value@)));
            i = i + 1;
            assert(pair_views(r@) =~= pair_views(self.cookies@.subrange(0, i as int)));
        }
        assert(self.cookies@.subrange(0, self.cookies.len() as int) == self.cookies@);
        r
    }
}

/// Collecting the pairs that a cookie set hands out gives the same mapping.
pub proof fn lemma_cookie_pairs_round_trip(c: CookieConfig, handed_out: Seq<(String, String)>)
    requires
        pair_views(handed_out) == pair_views(c.cookies@),
    ensures
        pairs_map(pair_views(handed_out)) == c@,
{
}

} // verus!
