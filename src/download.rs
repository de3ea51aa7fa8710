//! Download plans for model assets, the checks made on a finished download,
//! progress arithmetic, and the path rules of archive extraction.
use vstd::prelude::*;
use crate::models::{asset_dir, find_by_name, format_extension, index_of, kind_dir, ArchiveFormat, ModelAsset, ModelManager, ModelSource, ModelStatus};
use crate::text::{trim_str, trimmed};

verus! {

/// What `Path::with_extension` makes of a path and an extension.
pub uninterp spec fn with_extension_of(path: Seq<char>, ext: Seq<char>) -> Seq<char>;

/// Relies on `std::path::Path::with_extension`, applied to UTF-8 paths; an
/// extension holding a path separator panics, so none is admitted.
#[verifier::external_body]
fn path_with_extension(path: &str, ext: &str) -> (r: String)
    requires
        forall|i: int| 0 <= i < ext@.len() ==> ext@[i] != '/',
    ensures
        r@ == with_extension_of(path@, ext@),
{
    std::path::Path::new(path).with_extension(ext).to_string_lossy().into_owned()
}

/// The components of a path, as `Path::components` yields them (a leading
/// root directory is the component `/`).
pub uninterp spec fn components_of(path: Seq<char>) -> Seq<Seq<char>>;

/// Relies on `std::path::Path::components`: the components of a UTF-8 path, in order.
#[verifier::external_body]
fn path_components(path: &str) -> (r: Vec<String>)
    ensures
        r@.map_values(|c: String| c@) == components_of(path@),
{
    std::path::Path::new(path).components().map(|c| c.as_os_str().to_string_lossy().into_owned()).collect()
}

#[derive(Debug)]
pub struct ArchiveDownloadPlan {
    pub uri: String,
    pub archive_format: ArchiveFormat,
    pub destination: String,
    pub strip_prefix_components: u8,
    pub expected_size_bytes: Option<u64>,
    pub expected_checksum: Option<String>,
    pub filename: Option<String>,
}

impl ArchiveDownloadPlan {
    /// The file beside the destination that the archive is streamed into.
    pub fn staging_path(&self) -> (r: String)
        ensures
            r@ == with_extension_of(self.destination@, "download."@ + format_extension(self.archive_format)@),
    {
        proof {
            reveal_strlit("download.");
            reveal_strlit("zip");
            reveal_strlit("tar.gz");
            reveal_strlit("tar.bz2");
            reveal_strlit("bin");
        }
        let mut ext = String::from_str("download.");
        ext.append(self.archive_format.extension());
        assert forall|i: int| 0 <= i < ext@.len() implies ext@[i] != '/' by {
            if i >= 9 {
                assert(ext@[i] == format_extension(self.archive_format)@[i - 9]);
            }
        }
        path_with_extension(self.destination.as_str(), ext.as_str())
    }
}

#[derive(Debug)]
pub struct HfRepoDownloadPlan {
    pub repo: String,
    pub revision: String,
    pub destination: String,
    pub accept_globs: Vec<String>,
    pub reject_globs: Vec<String>,
}

#[derive(Debug)]
pub enum DownloadPlan {
    Archive(ArchiveDownloadPlan),
    HfRepo(HfRepoDownloadPlan),
}

/// What a finished download produced.
#[derive(Debug)]
pub struct DownloadOutcome {
    pub final_path: String,
    pub total_size_bytes: u64,
    pub checksum: Option<String>,
}

/// Bytes received so far, and the total when known.
#[derive(Clone, Copy, Debug, PartialEq, Eq, Structural)]
pub struct DownloadProgress {
    pub downloaded: u64,
    pub total: Option<u64>,
}

/// The index of the first `c` in `s`, or its length.
pub open spec fn first_pos(s: Seq<char>, c: char, k: int) -> bool {
    &&& 0 <= k <= s.len()
    &&& forall|j: int| 0 <= j < k ==> s[j] != c
    &&& k < s.len() ==> s[k] == c
}

/// The index just after the last `c` in `s`, or 0.
pub open spec fn after_last_pos(s: Seq<char>, c: char, k: int) -> bool {
    &&& 0 <= k <= s.len()
    &&& forall|j: int| k <= j < s.len() ==> s[j] != c
    &&& k > 0 ==> s[k - 1] == c
}

fn find_first(s: &Vec<char>, c: char) -> (k: usize)
    ensures
        first_pos(s@, c, k as int),
{
    let mut k: usize = 0;
    while k < s.len() && s[k] != c
        invariant
            k <= s@.len(),
            forall|j: int| 0 <= j < k ==> s@[j] != c,
        decreases s@.len() - k,
    {
        k = k + 1;
    }
    k
}

pub(crate) fn find_after_last(s: &Vec<char>, c: char) -> (k: usize)
    ensures
        after_last_pos(s@, c, k as int),
{
    let mut k: usize = s.len();
    while k > 0 && s[k - 1] != c
        invariant
            k <= s@.len(),
            forall|j: int| k <= j < s@.len() ==> s@[j] != c,
        decreases k,
    {
        k = k - 1;
    }
    k
}

/// The last path segment of a URI without its query and fragment, trimmed.
pub open spec fn uri_file_part(uri: Seq<char>, a: int, q: int, h: int) -> Seq<char> {
    uri.subrange(a, uri.len() as int).subrange(0, q).subrange(0, h)
}

fn chars_to_string(v: &Vec<char>, from: usize, to: usize) -> (r: String)
    requires
        from <= to <= v@.len(),
    ensures
        r@ == v@.subrange(from as int, to as int),
{
    let mut out = String::new();
    let mut i: usize = from;
    while i < to
        invariant
            from <= i <= to,
            to <= v@.len(),
            out@ == v@.subrange(from as int, i as int),
        decreases to - i,
    {
        let mut one = String::new();
        append_char(&mut one, v[i]);
        out.append(one.as_str());
        assert(out@ =~= v@.subrange(from as int, i + 1));
        i = i + 1;
    }
    out
}

/// Relies on `String::push`: the character is appended.
#[verifier::external_body]
pub(crate) fn append_char(s: &mut String, c: char)
    ensures
        final(s)@ == old(s)@.push(c),
{
    s.push(c)
}

/// The file name a URI points at: after the last `/`, before any `?` or
/// `#`, trimmed; `None` when nothing is left.
pub fn filename_from_uri(uri: &str) -> (r: Option<String>)
    ensures
        ({
            let s = uri@;
            exists|a: int, q: int, h: int| {
                &&& after_last_pos(s, '/', a)
                &&& first_pos(s.subrange(a, s.len() as int), '?', q)
                &&& first_pos(s.subrange(a, s.len() as int).subrange(0, q), '#', h)
                &&& match r {
                    Some(n) => n@ == trimmed(uri_file_part(s, a, q, h)) && n@.len() > 0,
                    None => trimmed(uri_file_part(s, a, q, h)).len() == 0,
                }
            }
        }),
{
    let s = crate::text::chars_of(uri);
    let a = find_after_last(&s, '/');
    let seg: Vec<char> = {
        let t = chars_to_string(&s, a, s.len());
        crate::text::chars_of(t.as_str())
    };
    let q = find_first(&seg, '?');
    let before_q = {
        let t = chars_to_string(&seg, 0, q);
        crate::text::chars_of(t.as_str())
    };
    let h = find_first(&before_q, '#');
    let part = chars_to_string(&before_q, 0, h);
    let clean = trim_str(part.as_str());
    proof {
        assert(seg@ == s@.subrange(a as int, s@.len() as int));
        assert(part@ == uri_file_part(uri@, a as int, q as int, h as int));
    }
    if clean.unicode_len() == 0 {
        None
    } else {
        Some(String::from_str(clean))
    }
}

/// The relative path left after removing `n` leading components, `.` when
/// nothing is left; `None` when the path has fewer than `n` components.
pub open spec fn stripped(comps: Seq<Seq<char>>, n: nat) -> Option<Seq<Seq<char>>> {
    if comps.len() < n {
        None
    } else {
        Some(comps.subrange(n as int, comps.len() as int))
    }
}

/// The separator written after a component: none after the root `/`.
pub open spec fn separator_after(c: Seq<char>) -> Seq<char> {
    if c.len() > 0 && c.last() == '/' { Seq::<char>::empty() } else { "/"@ }
}

/// Components joined with `/`, as a path buffer collects them.
pub open spec fn joined_path(comps: Seq<Seq<char>>) -> Seq<char>
    decreases comps.len(),
{
    if comps.len() == 0 {
        Seq::<char>::empty()
    } else if comps.len() == 1 {
        comps[0]
    } else {
        joined_path(comps.drop_last()) + separator_after(comps.drop_last().last()) + comps.last()
    }
}

fn ends_with_slash(s: &str) -> (r: bool)
    ensures
        r == (s@.len() > 0 && s@.last() == '/'),
{
    let n = s.unicode_len();
    n > 0 && s.get_char(n - 1) == '/'
}

/// Where an archive entry lands, relative to the destination.
pub open spec fn entry_target(path: Seq<char>, n: nat) -> Option<Seq<char>> {
    match stripped(components_of(path), n) {
        None => None,
        Some(rest) => if rest.len() == 0 { Some("."@) } else { Some(joined_path(rest)) },
    }
}

/// Removes the first `count` components of an archive entry's path.
pub fn strip_components(path: &str, count: u8) -> (r: Option<String>)
    ensures
        r.is_some() == entry_target(path@, count as nat).is_some(),
        r.is_some() ==> r.unwrap()@ == entry_target(path@, count as nat).unwrap(),
{
    let comps = path_components(path);
    let ghost views = comps@.map_values(|c: String| c@);
    let n = count as usize;
    if comps.len() < n {
        return None;
    }
    if comps.len() == n {
        return Some(String::from_str("."));
    }
    let ghost rest = views.subrange(n as int, views.len() as int);
    let mut out = String::new();
    let mut i: usize = n;
    while i < comps.len()
        invariant
            n <= i <= comps@.len(),
            n < comps@.len(),
            views == comps@.map_values(|c: String| c@),
            rest == views.subrange(n as int, views.len() as int),
            i > n ==> out@ == joined_path(views.subrange(n as int, i as int)),
            i == n ==> out@.len() == 0,
        decreases comps@.len() - i,
    {
        let ghost pre = views.subrange(n as int, i as int);
        let ghost next = views.subrange(n as int, i + 1);
        assert(next.drop_last() =~= pre);
        assert(next.last() == comps@[i as int]@);
        if i > n {
            assert(pre.last() == comps@[i - 1]@);
            if !ends_with_slash(comps[i - 1].as_str()) {
                out.append("/");
            }
        } else {
            assert(next.len() == 1);
        }
        out.append(comps[i].as_str());
        proof {
            if i > n {
                assert(out@ =~= joined_path(pre) + separator_after(pre.last()) + next.last());
            } else {
                assert(out@ =~= next[0]);
            }
        }
        i = i + 1;
    }
    assert(views.subrange(n as int, comps@.len() as int) =~= rest);
    Some(out)
}

/// An entry has a target exactly when its path has at least `n`
/// components; the target depends on the path and `n` alone, so extracting
/// the same archive again into an emptied destination writes the same files.
pub proof fn lemma_extraction_targets(path: Seq<char>, n: nat)
    ensures
        entry_target(path, n).is_some() <==> components_of(path).len() >= n,
        components_of(path).len() == n ==> entry_target(path, n) == Some("."@),
{
}

/// The download plan of an asset under `models_dir`, or `None` without a source.
pub fn plan_for(asset: &ModelAsset, models_dir: &str) -> (r: Option<DownloadPlan>)
    ensures
        (match asset.source {
            None => r.is_none(),
            Some(ModelSource::Archive(src)) => (r matches Some(DownloadPlan::Archive(p))
                && p.uri@ == src.uri@ && p.archive_format == src.archive_format && p.strip_prefix_components == src.strip_prefix_components
                && p.destination@ == models_dir@ + "/"@ + kind_dir(asset.kind)@ + "/"@ + asset.name@ + "-"@ + asset.version@
                && p.expected_size_bytes == (if asset.size_bytes > 0 { Some(asset.size_bytes) } else { None })),
            Some(ModelSource::HfRepo(src)) => (r matches Some(DownloadPlan::HfRepo(p))
                && p.repo@ == src.repo@
                && p.revision@ == (match src.revision { Some(v) => v@, None => "main"@ })
                && p.destination@ == models_dir@ + "/"@ + kind_dir(asset.kind)@ + "/"@ + asset.name@ + "-"@ + asset.version@),
        }),
{
    let mut destination = String::from_str(models_dir);
    destination.append("/");
    let dir = asset_dir(asset);
    destination.append(dir.as_str());
    assert(destination@ =~= models_dir@ + "/"@ + kind_dir(asset.kind)@ + "/"@ + asset.name@ + "-"@ + asset.version@);
    match &asset.source {
        None => None,
        Some(ModelSource::Archive(s)) => {
            let checksum = match &asset.checksum {
                Some(c) => Some(c.clone()),
                None => None,
            };
            Some(DownloadPlan::Archive(ArchiveDownloadPlan {
                uri: s.uri.clone(),
                archive_format: s.archive_format,
                destination,
                strip_prefix_components: s.strip_prefix_components,
                expected_size_bytes: if asset.size_bytes > 0 { Some(asset.size_bytes) } else { None },
                expected_checksum: checksum,
                filename: filename_from_uri(s.uri.as_str()),
            }))
        },
        Some(ModelSource::HfRepo(s)) => {
            let revision = match &s.revision {
                Some(v) => v.clone(),
                None => String::from_str("main"),
            };
            Some(DownloadPlan::HfRepo(HfRepoDownloadPlan {
                repo: s.repo.clone(),
                revision,
                destination,
                accept_globs: copy_strings(&s.accept_globs),
                reject_globs: copy_strings(&s.reject_globs),
            }))
        },
    }
}

/// How a queued download job starts.
#[derive(Debug)]
pub enum DownloadStart {
    /// No asset has that name.
    NotFound,
    /// The asset is installed or already downloading; nothing is done.
    Skipped,
    /// The asset has no source; it is marked failed.
    MissingSource,
    /// The asset is marked downloading and this plan is to be run.
    Started(DownloadPlan),
}

pub open spec fn may_download(a: ModelAsset) -> bool {
    a.status matches ModelStatus::NotInstalled || a.status matches ModelStatus::Error(_)
}

/// Starts the download job for the asset named `name`: only assets that
/// are not installed or failed are downloaded.
pub fn begin_download(manager: &mut ModelManager, name: &str, models_dir: &str) -> (r: DownloadStart)
    ensures
        match index_of(old(manager).assets@, name@) {
            None => r is NotFound && final(manager).assets@ == old(manager).assets@,
            Some(i) => {
                let a = old(manager).assets@[i];
                if !may_download(a) {
                    r is Skipped && final(manager).assets@ == old(manager).assets@
                } else if a.source.is_none() {
                    (r is MissingSource) && (final(manager).assets@[i].status matches ModelStatus::Error(m) && m@ == "missing download source"@)
                        && final(manager).assets@ == old(manager).assets@.update(i, final(manager).assets@[i])
                        && final(manager).assets@[i] == (ModelAsset { status: final(manager).assets@[i].status, ..a })
                } else {
                    (r is Started) && final(manager).assets@ == old(manager).assets@.update(i, ModelAsset {
                        status: ModelStatus::Downloading { progress_bp: 0, downloaded_bytes: 0, total_bytes: None },
                        ..a
                    })
                }
            },
        },
{
    let i = match find_by_name(&manager.assets, name) {
        None => {
            return DownloadStart::NotFound;
        },
        Some(i) => i,
    };
    let open_state = matches!(manager.assets[i].status, ModelStatus::NotInstalled) || matches!(manager.assets[i].status, ModelStatus::Error(_));
    if !open_state {
        return DownloadStart::Skipped;
    }
    if manager.assets[i].source.is_none() {
        manager.set_status(name, ModelStatus::Error(String::from_str("missing download source")));
        return DownloadStart::MissingSource;
    }
    let plan = plan_for(&manager.assets[i], models_dir);
    manager.set_status(name, ModelStatus::Downloading { progress_bp: 0, downloaded_bytes: 0, total_bytes: None });
    match plan {
        Some(p) => DownloadStart::Started(p),
        None => DownloadStart::MissingSource,
    }
}

fn copy_strings(v: &Vec<String>) -> (r: Vec<String>)
    ensures
        r@.len() == v@.len(),
        forall|i: int| 0 <= i < r@.len() ==> #[trigger] r@[i]@ == v@[i]@,
{
    let mut out: Vec<String> = Vec::new();
    let mut i: usize = 0;
    while i < v.len()
        invariant
            i <= v@.len(),
            out@.len() == i,
            forall|k: int| 0 <= k < i ==> #[trigger] out@[k]@ == v@[k]@,
        decreases v@.len() - i,
    {
        out.push(v[i].clone());
        i = i + 1;
    }
    out
}

/// Why a finished download was refused.
#[derive(Clone, Debug)]
pub enum DownloadCheckError {
    SizeMismatch { expected_size: u64, actual_size: u64 },
    ChecksumMismatch { expected_checksum: String, actual_checksum: String },
}

/// Checks a downloaded file's size and checksum against what the plan expects.
pub fn verify_download(size: u64, checksum: &str, plan: &ArchiveDownloadPlan) -> (r: Result<(), DownloadCheckError>)
    ensures
        (plan.expected_size_bytes matches Some(e) && e != size) ==> (r matches Err(DownloadCheckError::SizeMismatch { expected_size, actual_size })
            && expected_size == plan.expected_size_bytes.unwrap() && actual_size == size),
        !(plan.expected_size_bytes matches Some(e) && e != size) && (plan.expected_checksum matches Some(c) && c@ != checksum@) ==> (r matches Err(
            DownloadCheckError::ChecksumMismatch { expected_checksum, actual_checksum },
        ) && expected_checksum@ == plan.expected_checksum.unwrap()@ && actual_checksum@ == checksum@),
        !(plan.expected_size_bytes matches Some(e) && e != size) && !(plan.expected_checksum matches Some(c) && c@ != checksum@) ==> r is Ok,
{
    if let Some(e) = plan.expected_size_bytes {
        if e != size {
            return Err(DownloadCheckError::SizeMismatch { expected_size: e, actual_size: size });
        }
    }
    if let Some(c) = &plan.expected_checksum {
        if !crate::text::str_eq(c.as_str(), checksum) {
            return Err(DownloadCheckError::ChecksumMismatch { expected_checksum: c.clone(), actual_checksum: String::from_str(checksum) });
        }
    }
    Ok(())
}

/// Download progress in hundredths of a percent, capped at 10000; 0 while the total is unknown.
pub open spec fn progress_bp_of(downloaded: u64, total: Option<u64>) -> u32 {
    match total {
        Some(t) => if t == 0 {
            0
        } else if downloaded >= t {
            10000
        } else {
            ((downloaded as int * 10000) / (t as int)) as u32
        },
        None => 0,
    }
}

pub fn progress_bp(downloaded: u64, total: Option<u64>) -> (r: u32)
    ensures
        r == progress_bp_of(downloaded, total),
        r <= 10000,
{
    match total {
        Some(t) => {
            if t == 0 {
                0
            } else if downloaded >= t {
                10000
            } else {
                let x: u128 = (downloaded as u128) * 10000u128;
                let q: u128 = x / (t as u128);
                assert(q < 10000) by (nonlinear_arith)
                    requires x == downloaded * 10000, q == x / (t as u128), downloaded < t, t > 0;
                q as u32
            }
        },
        None => 0,
    }
}

/// Minimum spacing of progress events, unless the percent changed.
pub const PROGRESS_EVENT_MS: u64 = 150;

/// Whether a progress event is due: 150 ms have passed or the percent changed.
pub fn progress_event_due(since_last_ms: u64, last_bp: u32, bp: u32) -> (r: bool)
    ensures
        r == (since_last_ms >= PROGRESS_EVENT_MS || last_bp / 100 != bp / 100),
{
    since_last_ms >= PROGRESS_EVENT_MS || last_bp / 100 != bp / 100
}

/// The total size of a repository's files when every size is known and
/// their sum is positive.
pub fn total_if_known(sizes: &Vec<Option<u64>>) -> (r: Option<u64>)
    ensures
        r.is_some() ==> forall|i: int| 0 <= i < sizes@.len() ==> sizes@[i].is_some(),
        r.is_some() ==> r.unwrap() > 0,
        (forall|i: int| 0 <= i < sizes@.len() ==> sizes@[i].is_some()) && sum_sizes(sizes@) > 0 && sum_sizes(sizes@) <= u64::MAX ==> r == Some(
            sum_sizes(sizes@) as u64,
        ),
{
    let mut total: u64 = 0;
    let mut i: usize = 0;
    while i < sizes.len()
        invariant
            i <= sizes@.len(),
            forall|k: int| 0 <= k < i ==> sizes@[k].is_some(),
            total == sum_sizes(sizes@.subrange(0, i as int)),
        decreases sizes@.len() - i,
    {
        assert(sizes@.subrange(0, i + 1).drop_last() =~= sizes@.subrange(0, i as int));
        match sizes[i] {
            None => {
                return None;
            },
            Some(s) => {
                if total > u64::MAX - s {
                    proof {
                        lemma_sum_grows(sizes@, i as int + 1);
                    }
                    return None;
                }
                total = total + s;
            },
        }
        i = i + 1;
    }
    assert(sizes@.subrange(0, sizes@.len() as int) =~= sizes@);
    if total == 0 {
        None
    } else {
        Some(total)
    }
}

/// The sum of the known sizes.
pub open spec fn sum_sizes(s: Seq<Option<u64>>) -> int
    decreases s.len(),
{
    if s.len() == 0 {
        0
    } else {
        sum_sizes(s.drop_last()) + match s.last() {
            Some(x) => x as int,
            None => 0,
        }
    }
}

proof fn lemma_sum_grows(s: Seq<Option<u64>>, k: int)
    requires
        0 <= k <= s.len(),
    ensures
        sum_sizes(s) >= sum_sizes(s.subrange(0, k)),
    decreases s.len() - k,
{
    if k < s.len() {
        lemma_sum_grows(s, k + 1);
        assert(s.subrange(0, k + 1).drop_last() =~= s.subrange(0, k));
    } else {
        assert(s.subrange(0, k) =~= s);
    }
}

} // verus!
