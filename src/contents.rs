use vstd::prelude::*;
use vstd::string::*;
use chrono::Datelike;
use crate::cache::UrlTable;
use crate::hash::{get_hash, sha256_of};
use crate::markdown::{distinct, edits_of, holds, is_local_image_in, md_events, md_html, render_body};
use crate::text::{
    body_of, collapse_lines, has_front_matter, front_of, lines_of, split_front_matter, strings_view,
    strip_local_prefix, strip_trailing_slashes, trim_end_slashes, trimmed_concat, without_local_prefix,
};

verus! {

/// Why a document could not be built.
#[derive(PartialEq, Eq, Structural, Clone, Copy, Debug)]
pub enum ContentsError {
    FileRead,
    FileWrite,
    MdParse,
    FetchOgpError,
    OtherBuild,
}

impl ContentsError {
    /// The error's name, as shown to users.
    pub fn message(&self) -> (r: &'static str)
        ensures
            *self == ContentsError::FileRead ==> r@ == "ContentsError::FileRead"@,
            *self == ContentsError::FileWrite ==> r@ == "ContentsError::FileWrite"@,
            *self == ContentsError::MdParse ==> r@ == "ContentsError::MdParse"@,
            *self == ContentsError::FetchOgpError ==> r@ == "ContentsError::FetchOgpError"@,
            *self == ContentsError::OtherBuild ==> r@ == "ContentsError::OtherBuild"@,
    {
        match self {
            ContentsError::FileRead => "ContentsError::FileRead",
            ContentsError::FileWrite => "ContentsError::FileWrite",
            ContentsError::MdParse => "ContentsError::MdParse",
            ContentsError::FetchOgpError => "ContentsError::FetchOgpError",
            ContentsError::OtherBuild => "ContentsError::OtherBuild",
        }
    }
}

/// A calendar date. The dates that the library makes are real ones
/// (`is_real_date`).
#[derive(PartialEq, Eq, Structural, Clone, Copy, Debug)]
pub struct Date {
    pub year: i32,
    pub month: u32,
    pub day: u32,
}

pub open spec fn is_leap_year(y: int) -> bool {
    y % 4 == 0 && (y % 100 != 0 || y % 400 == 0)
}

pub open spec fn days_in_month(y: int, m: int) -> int {
    if m == 2 {
        if is_leap_year(y) { 29 } else { 28 }
    } else if m == 4 || m == 6 || m == 9 || m == 11 {
        30
    } else {
        31
    }
}

/// A day of the proleptic Gregorian calendar within the years chrono holds.
pub open spec fn is_real_date(d: Date) -> bool {
    &&& -262143 <= d.year <= 262142
    &&& 1 <= d.month <= 12
    &&& 1 <= d.day <= days_in_month(d.year as int, d.month as int)
}

impl Date {
    /// The date of year `year`, month `month`, day `day`, where that day exists.
    pub fn new(year: i32, month: u32, day: u32) -> (r: Option<Date>)
        ensures
            r is Some <==> is_real_date(Date { year, month, day }),
            r matches Some(d) ==> d == (Date { year, month, day }),
    {
        if year < -262143 || year > 262142 || month < 1 || month > 12 || day < 1 {
            return None;
        }
        let leap = year % 4 == 0 && (year % 100 != 0 || year % 400 == 0);
        let days: u32 = if month == 2 {
            if leap { 29 } else { 28 }
        } else if month == 4 || month == 6 || month == 9 || month == 11 {
            30
        } else {
            31
        };
        if day > days {
            None
        } else {
            Some(Date { year, month, day })
        }
    }
}

pub open spec fn digit(n: int) -> char {
    seq!['0', '1', '2', '3', '4', '5', '6', '7', '8', '9'][n % 10]
}

/// "YYYY/MM/DD" with zero-padded digits, for a year in 0..=9999.
pub open spec fn ymd_digits(d: Date) -> Seq<char> {
    let y = d.year as int;
    let m = d.month as int;
    let dd = d.day as int;
    seq![digit(y / 1000), digit(y / 100), digit(y / 10), digit(y), '/', digit(m / 10), digit(m), '/',
        digit(dd / 10), digit(dd)]
}

/// The fields of a document's front matter, as text.
pub struct FrontFields {
    pub title: String,
    pub slug: String,
    pub date: String,
    pub tags: Vec<String>,
}

pub open spec fn front_view(f: Option<FrontFields>) -> Option<(Seq<char>, Seq<char>, Seq<char>, Seq<Seq<char>>)> {
    match f {
        Some(f) => Some((f.title@, f.slug@, f.date@, strings_view(f.tags@))),
        None => None,
    }
}

/// The title, slug, date and tags that serde_yaml reads in a front matter,
/// when each is there as a string (the tags as a sequence of strings).
pub uninterp spec fn yaml_front_matter(s: Seq<char>) -> Option<(Seq<char>, Seq<char>, Seq<char>, Seq<Seq<char>>)>;

/// Relies on serde_yaml::from_str into serde_yaml::Value, and on Value::get
/// and Value::as_sequence to read its fields; a scalar (string, number or
/// boolean) is read as its text.
#[verifier::external_body]
fn read_front_matter(text: &str) -> (r: Option<FrontFields>)
    ensures
        front_view(r) == yaml_front_matter(text@),
{
    let v: serde_yaml::Value = serde_yaml::from_str(text).ok()?;
    let scalar = |x: &serde_yaml::Value| match x {
        serde_yaml::Value::String(s) => Some(s.clone()),
        serde_yaml::Value::Number(n) => Some(n.to_string()),
        serde_yaml::Value::Bool(b) => Some(b.to_string()),
        _ => None,
    };
    let tags = v.get("tags")?.as_sequence()?.iter().map(|t| scalar(t)).collect::<Option<Vec<String>>>()?;
    Some(FrontFields { title: scalar(v.get("title")?)?, slug: scalar(v.get("slug")?)?, date: scalar(v.get("date")?)?, tags })
}

/// The date that chrono's NaiveDate::parse_from_str reads in a text with the
/// format "%Y/%m/%d", if it reads one.
pub uninterp spec fn slash_date_parse(s: Seq<char>) -> Option<Date>;

/// Relies on chrono::NaiveDate::parse_from_str with "%Y/%m/%d"; a NaiveDate
/// holds only real dates.
#[verifier::external_body]
fn parse_slash_date(s: &str) -> (r: Option<Date>)
    ensures
        r == slash_date_parse(s@),
        r matches Some(d) ==> is_real_date(d),
{
    chrono::NaiveDate::parse_from_str(s, "%Y/%m/%d").ok()
        .map(|d| Date { year: d.year(), month: d.month(), day: d.day() })
}

/// What chrono writes for a date with the format "%Y/%m/%d".
pub uninterp spec fn slash_date_text(d: Date) -> Seq<char>;

/// Relies on chrono::NaiveDate::from_ymd_opt, which is Some exactly for a
/// real date, and on NaiveDate::format with "%Y/%m/%d", which writes a year in
/// 0..=9999 as four digits and month and day as two, zero-padded.
#[verifier::external_body]
fn format_slash_date(d: Date) -> (r: Option<String>)
    ensures
        r is Some <==> is_real_date(d),
        r matches Some(t) ==> t@ == slash_date_text(d),
        r matches Some(t) ==> (0 <= d.year <= 9999 ==> t@ == ymd_digits(d)),
{
    chrono::NaiveDate::from_ymd_opt(d.year, d.month, d.day).map(|n| n.format("%Y/%m/%d").to_string())
}

/// A document's metadata.
pub struct ContentMeta {
    pub title: String,
    pub slug: String,
    pub date: Date,
    pub tags: Vec<String>,
    pub images: Vec<String>,
}

/// A document rendered to HTML, with its metadata.
pub struct Content {
    pub meta: ContentMeta,
    pub content: String,
}

pub open spec fn doc_front(doc: Seq<char>) -> Seq<char> {
    front_of(lines_of(doc), lines_of(doc).len() as int)
}

pub open spec fn doc_body(doc: Seq<char>) -> Seq<char> {
    body_of(lines_of(doc), lines_of(doc).len() as int)
}

/// Whether a document's front matter is complete: it is enclosed by two
/// delimiter lines, it is read, its slug is not empty and its date reads as
/// "YYYY/MM/DD".
pub open spec fn front_is_valid(doc: Seq<char>) -> bool {
    has_front_matter(doc) && match yaml_front_matter(doc_front(doc)) {
        Some(f) => f.1.len() > 0 && slash_date_parse(f.2) is Some,
        None => false,
    }
}

/// A document's front matter, read and checked, with its date and its body.
pub struct FrontMatter {
    pub fields: FrontFields,
    pub date: Date,
    pub body: String,
}

/// Splits a document and reads its front matter; fails with `MdParse`
/// exactly when the front matter is incomplete.
pub fn read_document(file_str: &str) -> (r: Result<FrontMatter, ContentsError>)
    ensures
        r is Err <==> !front_is_valid(file_str@),
        r matches Err(e) ==> e == ContentsError::MdParse,
        r matches Ok(m) ==> ({
            let f = yaml_front_matter(doc_front(file_str@))->0;
            &&& front_view(Some(m.fields)) == Some(f)
            &&& Some(m.date) == slash_date_parse(f.2)
            &&& is_real_date(m.date)
            &&& m.body@ == doc_body(file_str@)
        }),
{
    let (front, body) = match split_front_matter(file_str) {
        Some(parts) => parts,
        None => return Err(ContentsError::MdParse),
    };
    let fields = match read_front_matter(front.as_str()) {
        Some(f) => f,
        None => return Err(ContentsError::MdParse),
    };
    if fields.slug.unicode_len() == 0 {
        return Err(ContentsError::MdParse);
    }
    let date = match parse_slash_date(fields.date.as_str()) {
        Some(d) => d,
        None => return Err(ContentsError::MdParse),
    };
    Ok(FrontMatter { fields, date, body })
}

/// Splits a document, renders its body with the table's link metadata and
/// reads its front matter.
pub fn get_md_data(file_str: &str, url_caches: &UrlTable) -> (r: Result<Content, ContentsError>)
    ensures
        r is Err <==> !front_is_valid(file_str@),
        r matches Err(e) ==> e == ContentsError::MdParse,
        r matches Ok(c) ==> ({
            let f = yaml_front_matter(doc_front(file_str@))->0;
            let body = doc_body(file_str@);
            &&& c.meta.title@ == f.0
            &&& c.meta.slug@ == f.1
            &&& Some(c.meta.date) == slash_date_parse(f.2)
            &&& is_real_date(c.meta.date)
            &&& strings_view(c.meta.tags@) == f.3
            &&& c.content@ == md_html(body, edits_of(md_events(body), url_caches@))
            &&& distinct(c.meta.images@)
            &&& forall|u: Seq<char>| holds(c.meta.images@, u) <==> is_local_image_in(md_events(body), u)
        }),
{
    let doc = read_document(file_str)?;
    let rendered = render_body(doc.body.as_str(), url_caches);
    let meta = ContentMeta {
        title: doc.fields.title,
        slug: doc.fields.slug,
        date: doc.date,
        tags: doc.fields.tags,
        images: rendered.images,
    };
    Ok(Content { meta, content: rendered.html })
}

pub const PAGE_HEAD: &'static str = "<!DOCTYPE html>\n<html lang=\"ja\">\n<head>\n<meta charset=\"utf-8\" />\n<meta name=\"viewport\" content=\"width=device-width, initial-scale=1\" />\n<title>";
pub const PAGE_HEADING: &'static str = "</title>\n</head>\n<body>\n<article>\n<h1 class=\"title\">";
pub const PAGE_DATE: &'static str = "</h1>\n<time class=\"date\">";
pub const PAGE_CONTENT: &'static str = "</time>\n<div class=\"content\">\n";
pub const PAGE_TAIL: &'static str = "\n</div>\n</article>\n</body>\n</html>\n";

/// The page template with its title, date and content slots filled.
pub open spec fn page_text(title: Seq<char>, date: Seq<char>, content: Seq<char>) -> Seq<char> {
    PAGE_HEAD@ + title + PAGE_HEADING@ + title + PAGE_DATE@ + date + PAGE_CONTENT@ + content + PAGE_TAIL@
}

/// The page, collapsed: every line trimmed, the lines joined with nothing
/// between them.
pub open spec fn collapsed_page(title: Seq<char>, date: Seq<char>, content: Seq<char>) -> Seq<char> {
    let ls = lines_of(page_text(title, date, content));
    trimmed_concat(ls, ls.len() as int)
}

/// The output directory of a document: `<dist>/<slug>`, without trailing '/'.
pub open spec fn out_dir(dist: Seq<char>, slug: Seq<char>) -> Seq<char> {
    strip_trailing_slashes(strip_trailing_slashes(dist) + seq!['/'] + slug)
}

/// Where a local image is copied from: `<src>/<slug>/<path without "./">`.
pub open spec fn image_source(src: Seq<char>, slug: Seq<char>, img: Seq<char>) -> Seq<char> {
    strip_trailing_slashes(src) + seq!['/'] + slug + seq!['/'] + without_local_prefix(img)
}

/// Where a local image is copied to: `<dir>/<path without "./">`.
pub open spec fn image_target(dir: Seq<char>, img: Seq<char>) -> Seq<char> {
    dir + seq!['/'] + without_local_prefix(img)
}

/// What building a document writes: its page, the page's fingerprint, its
/// directory, and the images to copy as (from, to) pairs.
pub struct BuiltPage {
    pub dir: String,
    pub index_path: String,
    pub html: String,
    pub hash: Vec<u8>,
    pub copies: Vec<(String, String)>,
}

fn join3(a: &str, b: &str, c: &str) -> (r: String)
    ensures
        r@ == a@ + b@ + c@,
{
    let mut out = String::from_str(a);
    out.append(b);
    out.append(c);
    out
}

impl Content {
    /// Fills the page template, collapses it, fingerprints the result, and
    /// lays out where the page and its local images go under `dist_dir`.
    /// Succeeds exactly when the date is a real one.
    pub fn build_md(&self, src_dir: &str, dist_dir: &str) -> (r: Result<BuiltPage, ContentsError>)
        ensures
            r is Ok <==> is_real_date(self.meta.date),
            r matches Err(e) ==> e == ContentsError::OtherBuild,
            r matches Ok(p) ==> (0 <= self.meta.date.year <= 9999 ==> p.html@ == collapsed_page(
                self.meta.title@,
                ymd_digits(self.meta.date),
                self.content@,
            )),
            r matches Ok(p) ==> ({
                let date = slash_date_text(self.meta.date);
                let dir = out_dir(dist_dir@, self.meta.slug@);
                &&& p.html@ == collapsed_page(self.meta.title@, date, self.content@)
                &&& p.hash@ == sha256_of(p.html@)
                &&& p.dir@ == dir
                &&& p.index_path@ == dir + "/index.html"@
                &&& p.copies@.len() == self.meta.images@.len()
                &&& forall|i: int| 0 <= i < p.copies@.len() ==> {
                    &&& p.copies@[i].0@ == image_source(src_dir@, self.meta.slug@, self.meta.images@[i]@)
                    &&& p.copies@[i].1@ == image_target(dir, self.meta.images@[i]@)
                }
            }),
    {
        let date = match format_slash_date(self.meta.date) {
            Some(d) => d,
            None => return Err(ContentsError::OtherBuild),
        };
        let mut page = String::from_str(PAGE_HEAD);
        page.append(self.meta.title.as_str());
        page.append(PAGE_HEADING);
        page.append(self.meta.title.as_str());
        page.append(PAGE_DATE);
        page.append(date.as_str());
        page.append(PAGE_CONTENT);
        page.append(self.content.as_str());
        page.append(PAGE_TAIL);
        proof {
            assert(page@ =~= page_text(self.meta.title@, date@, self.content@));
        }
        let html = collapse_lines(page.as_str());
        let hash = get_hash(html.as_str());
        let dist = trim_end_slashes(dist_dir);
        let joined = join3(dist.as_str(), "/", self.meta.slug.as_str());
        let dir = trim_end_slashes(joined.as_str());
        let index_path = join3(dir.as_str(), "/index.html", "");
        let src = trim_end_slashes(src_dir);
        let ghost slug = self.meta.slug@;
        proof {
            reveal_strlit("/");
            reveal_strlit("");
            assert("/"@ =~= seq!['/']);
            assert(index_path@ =~= dir@ + "/index.html"@);
            assert(joined@ =~= strip_trailing_slashes(dist_dir@) + seq!['/'] + slug);
        }
        let mut copies: Vec<(String, String)> = Vec::new();
        let mut i: usize = 0;
        while i < self.meta.images.len()
            invariant
                i <= self.meta.images@.len(),
                src@ == strip_trailing_slashes(src_dir@),
                dir@ == out_dir(dist_dir@, slug),
                slug == self.meta.slug@,
                copies@.len() == i,
                forall|k: int| 0 <= k < i ==> {
                    &&& copies@[k].0@ == image_source(src_dir@, slug, self.meta.images@[k]@)
                    &&& copies@[k].1@ == image_target(dir@, self.meta.images@[k]@)
                },
            decreases self.meta.images@.len() - i,
        {
            let rel = strip_local_prefix(self.meta.images[i].as_str());
            let head = join3(src.as_str(), "/", self.meta.slug.as_str());
            let from = join3(head.as_str(), "/", rel.as_str());
            let to = join3(dir.as_str(), "/", rel.as_str());
            proof {
                reveal_strlit("/");
                assert("/"@ =~= seq!['/']);
                assert(from@ =~= image_source(src_dir@, slug, self.meta.images@[i as int]@));
                assert(to@ =~= image_target(dir@, self.meta.images@[i as int]@));
            }
            copies.push((from, to));
            i = i + 1;
        }
        Ok(BuiltPage { dir, index_path, html, hash, copies })
    }
}

} // verus!
