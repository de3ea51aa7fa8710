//! Release-manifest rules of the self-updater: version comparison, manifest
//! URLs and the choice of the release asset for this build.
use vstd::prelude::*;
use crate::shortcut::{digits_value, is_digit};
use crate::text::{chars_of, split_on, str_eq, trim_str, trimmed};

verus! {

/// What an update check found.
#[derive(Debug)]
pub struct UpdateCheckResult {
    pub current_version: String,
    pub latest_version: String,
    pub update_available: bool,
    pub tarball_url: Option<String>,
    pub sha256_url: Option<String>,
    pub checked_at_unix: i64,
    pub from_cache: bool,
}

/// A downloaded and verified release tarball.
#[derive(Debug)]
pub struct DownloadedUpdate {
    pub version: String,
    pub tarball_path: String,
}

#[derive(Debug)]
pub struct UpdateDownloadProgress {
    pub stage: String,
    pub downloaded_bytes: u64,
    pub total_bytes: Option<u64>,
}

#[derive(Debug)]
pub struct UpdateApplyProgress {
    pub stage: String,
    pub message: Option<String>,
}

/// One release asset of the manifest.
#[derive(Debug)]
pub struct LatestAsset {
    pub tarball: String,
    pub sha256_file: String,
    pub sha256: Option<String>,
}

/// The release manifest; asset keys are unique.
#[derive(Debug)]
pub struct LatestManifest {
    pub version: String,
    pub assets: Vec<(String, LatestAsset)>,
}

#[derive(Clone, Debug)]
pub enum UpdateError {
    /// The manifest URL does not end with `latest.json`.
    ManifestUrl,
    /// No asset fits this build.
    NoCompatibleAsset,
}

/// Leading `v`s removed.
pub open spec fn strip_v(s: Seq<char>) -> Seq<char>
    decreases s.len(),
{
    if s.len() > 0 && s[0] == 'v' {
        strip_v(s.subrange(1, s.len() as int))
    } else {
        s
    }
}

/// `u64::from_str`: an optional `+`, then one or more digits whose value fits.
pub open spec fn parse_u64_spec(d: Seq<char>) -> Option<u64> {
    decimal_u64(unsigned_body(d))
}

/// The digits after an optional `+`.
pub open spec fn unsigned_body(d: Seq<char>) -> Seq<char> {
    if d.len() > 0 && d[0] == '+' { d.subrange(1, d.len() as int) } else { d }
}

pub open spec fn all_digits(b: Seq<char>) -> bool {
    forall|i: int| 0 <= i < b.len() ==> is_digit(#[trigger] b[i])
}

/// One or more digits whose value fits in a `u64`.
pub open spec fn decimal_u64(b: Seq<char>) -> Option<u64> {
    if b.len() > 0 && all_digits(b) && digits_value(b) <= u64::MAX {
        Some(digits_value(b) as u64)
    } else {
        None
    }
}

/// `major.minor.patch`, missing parts read as 0, extra parts ignored.
pub open spec fn version_triplet(s: Seq<char>) -> Option<(u64, u64, u64)> {
    let parts = split_on(strip_v(trimmed(s)), '.');
    let major = parse_u64_spec(parts[0]);
    let minor = if parts.len() > 1 { parse_u64_spec(parts[1]) } else { Some(0u64) };
    let patch = if parts.len() > 2 { parse_u64_spec(parts[2]) } else { Some(0u64) };
    if major.is_some() && minor.is_some() && patch.is_some() {
        Some((major.unwrap(), minor.unwrap(), patch.unwrap()))
    } else {
        None
    }
}

/// Splits a character vector on `sep`.
pub fn split_chars(v: &Vec<char>, sep: char) -> (r: Vec<Vec<char>>)
    ensures
        r@.map_values(|p: Vec<char>| p@) == split_on(v@, sep),
{
    let mut out: Vec<Vec<char>> = Vec::new();
    let mut cur: Vec<char> = Vec::new();
    let mut i: usize = 0;
    assert(v@.subrange(0, 0) =~= Seq::<char>::empty());
    assert(split_on(v@.subrange(0, 0), sep) =~= out@.map_values(|p: Vec<char>| p@).push(cur@));
    while i < v.len()
        invariant
            i <= v@.len(),
            split_on(v@.subrange(0, i as int), sep) == out@.map_values(|p: Vec<char>| p@).push(cur@),
        decreases v@.len() - i,
    {
        let c = v[i];
        let ghost pre = v@.subrange(0, i as int);
        let ghost next = v@.subrange(0, i + 1);
        assert(next.drop_last() =~= pre);
        let ghost done = out@.map_values(|p: Vec<char>| p@);
        if c == sep {
            let finished = cur;
            out.push(finished);
            cur = Vec::new();
            assert(out@.map_values(|p: Vec<char>| p@) =~= done.push(finished@));
            assert(split_on(next, sep) =~= out@.map_values(|p: Vec<char>| p@).push(cur@));
        } else {
            let ghost old_cur = cur@;
            cur.push(c);
            assert(split_on(next, sep) =~= done.push(old_cur).update(done.len() as int, old_cur.push(c)));
            assert(split_on(next, sep) =~= out@.map_values(|p: Vec<char>| p@).push(cur@));
        }
        i = i + 1;
    }
    assert(v@.subrange(0, v@.len() as int) =~= v@);
    out.push(cur);
    out
}

/// Parses a decimal `u64` as `str::parse` does.
pub fn parse_u64(d: &Vec<char>) -> (r: Option<u64>)
    ensures
        r == parse_u64_spec(d@),
{
    let start: usize = if d.len() > 0 && d[0] == '+' { 1 } else { 0 };
    let ghost body = unsigned_body(d@);
    assert(body =~= d@.subrange(start as int, d@.len() as int));
    if start >= d.len() {
        return None;
    }
    let mut acc: u64 = 0;
    let mut i: usize = start;
    while i < d.len()
        invariant
            start <= i <= d@.len(),
            body == d@.subrange(start as int, d@.len() as int),
            body == unsigned_body(d@),
            forall|j: int| start <= j < i ==> is_digit(#[trigger] d@[j]),
            acc as nat == digits_value(d@.subrange(start as int, i as int)),
        decreases d@.len() - i,
    {
        let c = d[i];
        let ghost next = d@.subrange(start as int, i + 1);
        assert(next.drop_last() =~= d@.subrange(start as int, i as int));
        assert(next.last() == c);
        if !('0' <= c && c <= '9') {
            assert(body[(i - start) as int] == c);
            assert(!is_digit(body[(i - start) as int]));
            assert(!all_digits(body));
            assert(decimal_u64(body).is_none());
            assert(parse_u64_spec(d@).is_none());
            return None;
        }
        let digit: u64 = (c as u32 - 48) as u64;
        assert(digits_value(next) == acc * 10 + digit);
        if acc > (u64::MAX - digit) / 10 {
            proof {
                assert(acc * 10 + digit > u64::MAX) by (nonlinear_arith)
                    requires acc > (u64::MAX - digit) / 10, digit <= 9;
                assert(body.subrange(0, (i - start + 1) as int) =~= next);
                lemma_digits_prefix_le(body, (i - start + 1) as int);
                assert(digits_value(body) > u64::MAX);
                assert(parse_u64_spec(d@).is_none());
            }
            return None;
        }
        acc = acc * 10 + digit;
        i = i + 1;
    }
    Some(acc)
}

proof fn lemma_digits_prefix_le(d: Seq<char>, k: int)
    requires
        0 <= k <= d.len(),
    ensures
        digits_value(d) >= digits_value(d.subrange(0, k)),
    decreases d.len() - k,
{
    if k < d.len() {
        lemma_digits_prefix_le(d, k + 1);
        assert(d.subrange(0, k + 1).drop_last() =~= d.subrange(0, k));
    } else {
        assert(d.subrange(0, k) =~= d);
    }
}

/// Reads `v1.2.3`-style versions.
pub fn parse_version_triplet(input: &str) -> (r: Option<(u64, u64, u64)>)
    ensures
        r == version_triplet(input@),
{
    let t = chars_of(trim_str(input));
    let mut k: usize = 0;
    assert(t@.subrange(0, t@.len() as int) =~= t@);
    while k < t.len() && t[k] == 'v'
        invariant
            k <= t@.len(),
            strip_v(t@) == strip_v(t@.subrange(k as int, t@.len() as int)),
        decreases t@.len() - k,
    {
        assert(t@.subrange(k + 1, t@.len() as int) =~= t@.subrange(k as int, t@.len() as int).subrange(1, t@.len() - k));
        k = k + 1;
    }
    let mut body: Vec<char> = Vec::new();
    let mut i: usize = k;
    while i < t.len()
        invariant
            k <= i <= t@.len(),
            body@ == t@.subrange(k as int, i as int),
        decreases t@.len() - i,
    {
        body.push(t[i]);
        i = i + 1;
        assert(body@ =~= t@.subrange(k as int, i as int));
    }
    assert(t@.subrange(k as int, t@.len() as int) =~= strip_v(t@.subrange(k as int, t@.len() as int))) by {
        assert(!(t@.subrange(k as int, t@.len() as int).len() > 0 && t@.subrange(k as int, t@.len() as int)[0] == 'v'));
    }
    let parts = split_chars(&body, '.');
    proof {
        crate::text::lemma_split_nonempty(body@, '.');
    }
    let major = parse_u64(&parts[0]);
    let minor = if parts.len() > 1 { parse_u64(&parts[1]) } else { Some(0) };
    let patch = if parts.len() > 2 { parse_u64(&parts[2]) } else { Some(0) };
    match (major, minor, patch) {
        (Some(a), Some(b), Some(c)) => Some((a, b, c)),
        _ => None,
    }
}

pub open spec fn triplet_gt(l: (u64, u64, u64), c: (u64, u64, u64)) -> bool {
    l.0 > c.0 || (l.0 == c.0 && (l.1 > c.1 || (l.1 == c.1 && l.2 > c.2)))
}

/// Whether `latest` is a newer version than `current`; unreadable versions are never newer.
pub fn is_newer(latest: &str, current: &str) -> (r: bool)
    ensures
        r == (version_triplet(latest@).is_some() && version_triplet(current@).is_some() && triplet_gt(
            version_triplet(latest@).unwrap(),
            version_triplet(current@).unwrap(),
        )),
{
    match (parse_version_triplet(latest), parse_version_triplet(current)) {
        (Some(l), Some(c)) => l.0 > c.0 || (l.0 == c.0 && (l.1 > c.1 || (l.1 == c.1 && l.2 > c.2))),
        _ => false,
    }
}

pub open spec fn ends_with(s: Seq<char>, suf: Seq<char>) -> bool {
    s.len() >= suf.len() && s.subrange(s.len() - suf.len(), s.len() as int) == suf
}

fn strip_suffix_len(s: &Vec<char>, suf: &str) -> (r: Option<usize>)
    ensures
        r.is_some() == ends_with(s@, suf@),
        r.is_some() ==> r.unwrap() == s@.len() - suf@.len(),
{
    let m = suf.unicode_len();
    if m > s.len() {
        return None;
    }
    let len = s.len();
    let base = len - m;
    let mut j: usize = 0;
    while j < m
        invariant
            m == suf@.len(),
            len == s@.len(),
            base + m == len,
            j <= m,
            forall|k: int| 0 <= k < j ==> s@[base + k] == suf@[k],
        decreases m - j,
    {
        if s[base + j] != suf.get_char(j) {
            assert(s@.subrange(base as int, s@.len() as int)[j as int] != suf@[j as int]);
            return None;
        }
        j = j + 1;
    }
    assert(s@.subrange(base as int, s@.len() as int) =~= suf@);
    Some(base)
}

fn string_of(v: &Vec<char>, to: usize) -> (r: String)
    requires
        to <= v@.len(),
    ensures
        r@ == v@.subrange(0, to as int),
{
    let mut out = String::new();
    let mut i: usize = 0;
    while i < to
        invariant
            i <= to <= v@.len(),
            out@ == v@.subrange(0, i as int),
        decreases to - i,
    {
        crate::download::append_char(&mut out, v[i]);
        i = i + 1;
        assert(out@ =~= v@.subrange(0, i as int));
    }
    out
}

/// The directory URL of the release files: the manifest URL without its
/// trailing `/latest.json` (or `latest.json`).
pub fn base_url_from_manifest_url(url: &str) -> (r: Result<String, UpdateError>)
    ensures
        ends_with(url@, "/latest.json"@) ==> (r matches Ok(b) && b@ == url@.subrange(0, url@.len() - 12)),
        !ends_with(url@, "/latest.json"@) && ends_with(url@, "latest.json"@) ==> (r matches Ok(b) && b@ == url@.subrange(0, url@.len() - 11)),
        !ends_with(url@, "/latest.json"@) && !ends_with(url@, "latest.json"@) ==> (r matches Err(UpdateError::ManifestUrl)),
{
    proof {
        reveal_strlit("/latest.json");
        reveal_strlit("latest.json");
    }
    let v = chars_of(url);
    match strip_suffix_len(&v, "/latest.json") {
        Some(n) => Ok(string_of(&v, n)),
        None => match strip_suffix_len(&v, "latest.json") {
            Some(n) => Ok(string_of(&v, n)),
            None => Err(UpdateError::ManifestUrl),
        },
    }
}

/// Asset keys tried in order: the build flavor, the key inferred from the
/// binary, then the generic Linux keys, without repeats.
pub fn asset_key_candidates(flavor: Option<String>, inferred: Option<String>) -> (r: Vec<String>)
    ensures
        forall|i: int, j: int| 0 <= i < j < r@.len() ==> r@[i]@ != r@[j]@,
        flavor.is_some() ==> r@.len() > 0 && r@[0]@ == flavor.unwrap()@,
        forall|i: int| 0 <= i < r@.len() ==> ((flavor.is_some() && r@[i]@ == flavor.unwrap()@) || (inferred.is_some() && r@[i]@ == inferred.unwrap()@)
            || r@[i]@ == "linux-x86_64-webkit41"@ || r@[i]@ == "linux-x86_64-webkit40"@ || r@[i]@ == "linux-x86_64"@),
{
    let mut out: Vec<String> = Vec::new();
    let ghost f = flavor;
    let ghost g = inferred;
    if let Some(k) = flavor {
        out.push(k);
    }
    if let Some(k) = inferred {
        push_new(&mut out, k);
    }
    push_new(&mut out, String::from_str("linux-x86_64-webkit41"));
    push_new(&mut out, String::from_str("linux-x86_64-webkit40"));
    push_new(&mut out, String::from_str("linux-x86_64"));
    out
}

fn push_new(v: &mut Vec<String>, k: String)
    requires
        forall|i: int, j: int| 0 <= i < j < old(v)@.len() ==> old(v)@[i]@ != old(v)@[j]@,
    ensures
        forall|i: int, j: int| 0 <= i < j < final(v)@.len() ==> final(v)@[i]@ != final(v)@[j]@,
        final(v)@ == old(v)@ || final(v)@ == old(v)@.push(k),
        (exists|i: int| 0 <= i < final(v)@.len() && final(v)@[i]@ == k@),
{
    if index_of_key(v, k.as_str()).is_none() {
        v.push(k);
        assert(v@[v@.len() - 1]@ == k@);
    }
}

fn index_of_key(v: &Vec<String>, k: &str) -> (r: Option<usize>)
    ensures
        r.is_none() ==> forall|i: int| 0 <= i < v@.len() ==> v@[i]@ != k@,
        r.is_some() ==> r.unwrap() < v@.len() && v@[r.unwrap() as int]@ == k@ && forall|i: int| 0 <= i < r.unwrap() ==> v@[i]@ != k@,
{
    let mut i: usize = 0;
    while i < v.len()
        invariant
            i <= v@.len(),
            forall|j: int| 0 <= j < i ==> v@[j]@ != k@,
        decreases v@.len() - i,
    {
        if str_eq(v[i].as_str(), k) {
            return Some(i);
        }
        i = i + 1;
    }
    None
}

/// The manifest lists an asset under key `k`.
pub open spec fn listed(assets: Seq<(String, LatestAsset)>, k: Seq<char>) -> bool {
    exists|j: int| 0 <= j < assets.len() && #[trigger] assets[j].0@ == k
}

/// The manifest asset to download: the first candidate the manifest has;
/// failing that, its only asset if it has exactly one.
pub fn select_asset_key(candidates: &Vec<String>, manifest: &LatestManifest) -> (r: Result<usize, UpdateError>)
    ensures
        match r {
            Ok(i) => i < manifest.assets@.len() && ((exists|c: int| 0 <= c < candidates@.len() && #[trigger] candidates@[c]@ == manifest.assets@[i as int].0@
                && forall|d: int| 0 <= d < c ==> !listed(manifest.assets@, #[trigger] candidates@[d]@))
                || ((forall|c: int| 0 <= c < candidates@.len() ==> !listed(manifest.assets@, #[trigger] candidates@[c]@))
                && manifest.assets@.len() == 1 && i == 0)),
            Err(e) => (e matches UpdateError::NoCompatibleAsset) && manifest.assets@.len() != 1
                && forall|c: int| 0 <= c < candidates@.len() ==> !listed(manifest.assets@, #[trigger] candidates@[c]@),
        },
{
    let mut c: usize = 0;
    while c < candidates.len()
        invariant
            c <= candidates@.len(),
            forall|d: int| 0 <= d < c ==> !listed(manifest.assets@, #[trigger] candidates@[d]@),
        decreases candidates@.len() - c,
    {
        let mut j: usize = 0;
        while j < manifest.assets.len()
            invariant
                c < candidates@.len(),
                j <= manifest.assets@.len(),
                forall|d: int| 0 <= d < c ==> !listed(manifest.assets@, #[trigger] candidates@[d]@),
                forall|jj: int| 0 <= jj < j ==> candidates@[c as int]@ != manifest.assets@[jj].0@,
            decreases manifest.assets@.len() - j,
        {
            if str_eq(manifest.assets[j].0.as_str(), candidates[c].as_str()) {
                assert(candidates@[c as int]@ == manifest.assets@[j as int].0@);
                assert(0 <= c < candidates@.len() && candidates@[c as int]@ == manifest.assets@[j as int].0@
                    && forall|d: int| 0 <= d < c ==> !listed(manifest.assets@, #[trigger] candidates@[d]@));
                return Ok(j);
            }
            j = j + 1;
        }
        assert(!listed(manifest.assets@, candidates@[c as int]@));
        c = c + 1;
    }
    if manifest.assets.len() == 1 {
        return Ok(0);
    }
    Err(UpdateError::NoCompatibleAsset)
}

/// `base` without trailing slashes, then `/`, then `file`.
pub open spec fn release_url(base: Seq<char>, k: int, file: Seq<char>) -> Seq<char> {
    base.subrange(0, k) + "/"@ + file
}

fn release_file_url(base: &str, file: &str) -> (r: String)
    ensures
        exists|k: int| 0 <= k <= base@.len() && (forall|j: int| k <= j < base@.len() ==> base@[j] == '/') && (k > 0 ==> base@[k - 1] != '/')
            && r@ == release_url(base@, k, file@),
{
    let v = chars_of(base);
    let mut k: usize = v.len();
    while k > 0 && v[k - 1] == '/'
        invariant
            k <= v@.len(),
            v@ == base@,
            forall|j: int| k <= j < v@.len() ==> v@[j] == '/',
        decreases k,
    {
        k = k - 1;
    }
    let mut out = string_of(&v, k);
    out.append("/");
    out.append(file);
    assert(out@ == release_url(base@, k as int, file@));
    assert(k > 0 ==> base@[k - 1] != '/');
    out
}

/// Builds the result of an update check from a manifest.
pub fn build_result(current_version: &str, base_url: &str, manifest: &LatestManifest, candidates: &Vec<String>, checked_at_unix: i64, from_cache: bool) -> (r: Result<UpdateCheckResult, UpdateError>)
    ensures
        match r {
            Ok(u) => u.current_version@ == current_version@ && u.latest_version@ == manifest.version@ && u.update_available
                == (version_triplet(manifest.version@).is_some() && version_triplet(current_version@).is_some() && triplet_gt(
                version_triplet(manifest.version@).unwrap(),
                version_triplet(current_version@).unwrap(),
            )) && u.tarball_url.is_some() && u.sha256_url.is_some() && u.checked_at_unix == checked_at_unix && u.from_cache == from_cache,
            Err(e) => (e matches UpdateError::NoCompatibleAsset) && manifest.assets@.len() != 1,
        },
{
    let update_available = is_newer(manifest.version.as_str(), current_version);
    let i = match select_asset_key(candidates, manifest) {
        Ok(i) => i,
        Err(e) => {
            return Err(e);
        },
    };
    let asset = &manifest.assets[i].1;
    Ok(UpdateCheckResult {
        current_version: String::from_str(current_version),
        latest_version: manifest.version.clone(),
        update_available,
        tarball_url: Some(release_file_url(base_url, asset.tarball.as_str())),
        sha256_url: Some(release_file_url(base_url, asset.sha256_file.as_str())),
        checked_at_unix,
        from_cache,
    })
}

} // verus!
