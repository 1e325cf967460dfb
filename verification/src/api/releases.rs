//! Releases as the index lists them, and the choice of the archive among a
//! release's assets.

use crate::api::client::parsed_url;
use crate::api::client::prepare;
use crate::api::client::ClientError;
use crate::api::client::Method;
use crate::api::client::Request;
use vstd::prelude::*;
use vstd::string::*;

verus! {

/// One downloadable file of a release.
#[derive(Debug, Clone, PartialEq, Eq)]
pub struct Asset {
    pub browser_download_url: String,
    pub name: String,
    pub content_type: String,
    /// An algorithm tag, a separator and a hex digest, where the index
    /// published one.
    pub digest: Option<String>,
    pub size: u64,
}

/// One published version, with its assets in the order of the index.
#[derive(Debug, Clone, PartialEq, Eq)]
pub struct Release {
    pub url: String,
    pub tag_name: String,
    pub assets: Vec<Asset>,
}

/// The ending by which an archive is told from the other assets.
pub open spec fn archive_suffix() -> Seq<char> {
    seq!['.', 'g', 'z']
}

/// Whether a file name ends with the archive suffix.
pub open spec fn is_archive_name(name: Seq<char>) -> bool {
    &&& name.len() >= archive_suffix().len()
    &&& name.skip(name.len() - archive_suffix().len()) == archive_suffix()
}

/// Whether the asset at `i` is an archive and none before it is.
pub open spec fn is_first_archive(assets: Seq<Asset>, i: int) -> bool {
    &&& 0 <= i < assets.len()
    &&& is_archive_name(assets[i].name@)
    &&& forall|j: int| 0 <= j < i ==> !is_archive_name(#[trigger] assets[j].name@)
}

/// Whether no asset is an archive.
pub open spec fn has_no_archive(assets: Seq<Asset>) -> bool {
    forall|j: int| 0 <= j < assets.len() ==> !is_archive_name(#[trigger] assets[j].name@)
}

/// The first archive among the assets, if there is one.
pub open spec fn first_archive(assets: Seq<Asset>) -> Option<Asset> {
    if exists|i: int| is_first_archive(assets, i) {
        Some(assets[choose|i: int| is_first_archive(assets, i)])
    } else {
        None
    }
}

/// Whether `name` ends with the archive suffix.
pub fn has_archive_suffix(name: &str) -> (b: bool)
    ensures
        b == is_archive_name(name@),
{
    let n = name.unicode_len();
    if n < 3 {
        return false;
    }
    let b = name.get_char(n - 3) == '.' && name.get_char(n - 2) == 'g' && name.get_char(n - 1)
        == 'z';
    proof {
        let tail = name@.skip(n - 3);
        assert(tail.len() == 3);
        assert(tail[0] == name@[n - 3] && tail[1] == name@[n - 2] && tail[2] == name@[n - 1]);
        if b {
            assert(tail =~= archive_suffix());
        } else {
            assert(archive_suffix()[0] == '.' && archive_suffix()[1] == 'g' && archive_suffix()[2]
                == 'z');
        }
    }
    b
}

/// At most one asset is the first archive.
pub proof fn lemma_first_archive_is_unique(assets: Seq<Asset>, i: int, j: int)
    requires
        is_first_archive(assets, i),
        is_first_archive(assets, j),
    ensures
        i == j,
{
    if i < j {
        assert(!is_archive_name(assets[i].name@));
    } else if j < i {
        assert(!is_archive_name(assets[j].name@));
    }
}

/// The first archive is the asset at `i` exactly where `i` is its place.
pub proof fn lemma_first_archive_at(assets: Seq<Asset>, i: int)
    requires
        is_first_archive(assets, i),
    ensures
        first_archive(assets) == Some(assets[i]),
{
    let k = choose|k: int| is_first_archive(assets, k);
    lemma_first_archive_is_unique(assets, i, k);
}

/// There is no first archive exactly where no asset is an archive.
pub proof fn lemma_no_archive(assets: Seq<Asset>)
    ensures
        has_no_archive(assets) <==> first_archive(assets) is None,
{
    if has_no_archive(assets) {
        if exists|i: int| is_first_archive(assets, i) {
            let i = choose|i: int| is_first_archive(assets, i);
            assert(!is_archive_name(assets[i].name@));
        }
    } else {
        let j = choose|j: int| 0 <= j < assets.len() && is_archive_name(#[trigger] assets[j].name@);
        lemma_some_archive_has_first(assets, j);
    }
}

/// Where some asset is an archive, one of them is the first.
proof fn lemma_some_archive_has_first(assets: Seq<Asset>, j: int)
    requires
        0 <= j < assets.len(),
        is_archive_name(assets[j].name@),
    ensures
        exists|i: int| is_first_archive(assets, i),
    decreases j,
{
    if forall|k: int| 0 <= k < j ==> !is_archive_name(#[trigger] assets[k].name@) {
        assert(is_first_archive(assets, j));
    } else {
        let k = choose|k: int| 0 <= k < j && is_archive_name(#[trigger] assets[k].name@);
        lemma_some_archive_has_first(assets, k);
    }
}

impl Release {
    /// The archive of this release: the first asset, in the order of the
    /// index, whose name ends with the archive suffix. `None` where there is
    /// none, which is no error here.
    pub fn select_archive_asset(&self) -> (found: Option<&Asset>)
        ensures
            match found {
                Some(asset) => first_archive(self.assets@) == Some(*asset),
                None => first_archive(self.assets@) is None,
            },
            found is None <==> has_no_archive(self.assets@),
    {
        let mut i: usize = 0;
        while i < self.assets.len()
            invariant
                i <= self.assets.len(),
                forall|j: int| 0 <= j < i ==> !is_archive_name(#[trigger] self.assets@[j].name@),
            decreases self.assets.len() - i,
        {
            if has_archive_suffix(self.assets[i].name.as_str()) {
                proof {
                    lemma_first_archive_at(self.assets@, i as int);
                    lemma_no_archive(self.assets@);
                }
                return Some(&self.assets[i]);
            }
            i += 1;
        }
        proof {
            lemma_no_archive(self.assets@);
        }
        None
    }

    /// Where the archive of this release is downloaded from.
    pub fn get_download_link(&self) -> (link: Option<String>)
        ensures
            link == match first_archive(self.assets@) {
                Some(asset) => Some(asset.browser_download_url),
                None => None,
            },
    {
        match self.select_archive_asset() {
            Some(asset) => Some(asset.browser_download_url.clone()),
            None => None,
        }
    }

    /// The size in bytes that the index gives for the archive.
    pub fn get_download_size(&self) -> (size: Option<u64>)
        ensures
            size == match first_archive(self.assets@) {
                Some(asset) => Some(asset.size),
                None => None,
            },
    {
        match self.select_archive_asset() {
            Some(asset) => Some(asset.size),
            None => None,
        }
    }

    /// The digest that the index published for the archive; `None` where
    /// there is no archive or the archive has no digest.
    pub fn get_checksum(&self) -> (digest: Option<String>)
        ensures
            digest == match first_archive(self.assets@) {
                Some(asset) => asset.digest,
                None => None,
            },
    {
        match self.select_archive_asset() {
            Some(asset) => match &asset.digest {
                Some(text) => Some(text.clone()),
                None => None,
            },
            None => None,
        }
    }
}

/// The character of a decimal digit.
pub open spec fn decimal_digit(digit: nat) -> char {
    seq!['0', '1', '2', '3', '4', '5', '6', '7', '8', '9'][digit as int]
}

/// A natural number in decimal, without leading zeros.
pub open spec fn decimal_digits(n: nat) -> Seq<char>
    decreases n,
{
    if n < 10 {
        seq![decimal_digit(n)]
    } else {
        decimal_digits(n / 10).push(decimal_digit(n % 10))
    }
}

/// An integer in decimal, with a minus sign where it is negative.
pub open spec fn decimal(n: int) -> Seq<char> {
    if n < 0 {
        seq!['-'] + decimal_digits((-n) as nat)
    } else {
        decimal_digits(n as nat)
    }
}

/// The address of page `page` of the release index.
pub open spec fn releases_url_text(page: i32) -> Seq<char> {
    "https://api.github.com/repos/GloriousEggroll/proton-ge-custom/releases?page="@ + decimal(
        page as int,
    )
}

/// The headers that go with a query of the release index: who is asking,
/// and in which format the answer is wanted.
pub open spec fn index_headers_text() -> Seq<(Seq<char>, Seq<char>)> {
    seq![
        ("User-Agent"@, "prefix-manager"@),
        ("Accept"@, "application/vnd.github.v3+json"@),
    ]
}

/// The names and values of a list of headers, as sequences of characters.
pub open spec fn headers_text(headers: Seq<(&str, &str)>) -> Seq<(Seq<char>, Seq<char>)> {
    Seq::new(headers.len(), |i: int| (headers[i].0@, headers[i].1@))
}

fn digit_text(digit: u32) -> (text: &'static str)
    requires
        digit < 10,
    ensures
        text@ == seq![decimal_digit(digit as nat)],
{
    proof {
        reveal_strlit("0");
        reveal_strlit("1");
        reveal_strlit("2");
        reveal_strlit("3");
        reveal_strlit("4");
        reveal_strlit("5");
        reveal_strlit("6");
        reveal_strlit("7");
        reveal_strlit("8");
        reveal_strlit("9");
    }
    let text = match digit {
        0 => "0",
        1 => "1",
        2 => "2",
        3 => "3",
        4 => "4",
        5 => "5",
        6 => "6",
        7 => "7",
        8 => "8",
        _ => "9",
    };
    assert(text@ =~= seq![decimal_digit(digit as nat)]);
    text
}

fn append_digits(text: &mut String, n: u32)
    ensures
        final(text)@ == old(text)@ + decimal_digits(n as nat),
    decreases n,
{
    if n >= 10 {
        append_digits(text, n / 10);
    }
    text.append(digit_text(n % 10));
    assert(text@ =~= old(text)@ + decimal_digits(n as nat));
}

/// The address of one page of the release index. Pages are counted from 1;
/// what the index makes of another number is its own affair.
pub fn releases_url(page: i32) -> (url: String)
    ensures
        url@ == releases_url_text(page),
{
    let mut url = String::from_str(
        "https://api.github.com/repos/GloriousEggroll/proton-ge-custom/releases?page=",
    );
    let ghost prefix = url@;
    if page < 0 {
        url.append("-");
        proof {
            reveal_strlit("-");
        }
        let magnitude: u32 = (-(page as i64)) as u32;
        append_digits(&mut url, magnitude);
        assert(url@ =~= prefix + (seq!['-'] + decimal_digits((-(page as int)) as nat)));
    } else {
        append_digits(&mut url, page as u32);
    }
    url
}

/// The headers that go with a query of the release index.
pub fn index_headers() -> (headers: Vec<(&'static str, &'static str)>)
    ensures
        headers_text(headers@) == index_headers_text(),
{
    let mut headers: Vec<(&'static str, &'static str)> = Vec::new();
    headers.push(("User-Agent", "prefix-manager"));
    headers.push(("Accept", "application/vnd.github.v3+json"));
    assert(headers_text(headers@) =~= index_headers_text());
    headers
}

/// The query for one page of the release index: a `Get` of the page's
/// address, without a body, with the headers of the index.
///
/// To send it, and to read releases out of the answer, is the caller's part;
/// whether the page is the last one is for the caller to see.
pub fn releases_request(page: i32) -> (prepared: Result<Request<'static, String>, ClientError>)
    ensures
        match parsed_url(releases_url_text(page)) {
            Ok(target) => {
                &&& prepared is Ok
                &&& prepared->Ok_0.url == target
                &&& prepared->Ok_0.method == Method::Get
                &&& prepared->Ok_0.body is None
                &&& headers_text(prepared->Ok_0.headers@) == index_headers_text()
            },
            Err(reason) => prepared == Err::<Request<'static, String>, ClientError>(
                ClientError::UrlError(reason),
            ),
        },
{
    let url = releases_url(page);
    prepare(url.as_str(), Method::Get, None, Some(index_headers()))
}

} // verus!
