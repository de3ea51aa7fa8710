//! The model catalogue: assets, their sources and status, and the manifest's
//! in-memory rules (merge of built-ins, legacy cleanup, primary selection).
use vstd::prelude::*;
use crate::text::{contains_seq, str_contains, str_eq};

verus! {

#[derive(Clone, Copy, Debug, PartialEq, Eq, Structural)]
pub enum ModelKind {
    WhisperOnnx,
    WhisperCt2,
    Parakeet,
    Vad,
    /// A kind that this version does not know.
    Unknown,
}

impl ModelKind {
    /// The directory, under the models root, that holds assets of this kind.
    pub fn kind_path(&self) -> (r: &'static str)
        ensures
            r@ == kind_dir(*self)@,
    {
        match self {
            ModelKind::WhisperOnnx => "asr/whisper-onnx",
            ModelKind::WhisperCt2 => "asr/whisper-ct2",
            ModelKind::Parakeet => "asr/parakeet",
            ModelKind::Vad => "vad",
            ModelKind::Unknown => "legacy",
        }
    }
}

pub open spec fn kind_dir(k: ModelKind) -> &'static str {
    match k {
        ModelKind::WhisperOnnx => "asr/whisper-onnx",
        ModelKind::WhisperCt2 => "asr/whisper-ct2",
        ModelKind::Parakeet => "asr/parakeet",
        ModelKind::Vad => "vad",
        ModelKind::Unknown => "legacy",
    }
}

/// Install status; download progress is kept in hundredths of a percent.
#[derive(Clone, Debug)]
pub enum ModelStatus {
    NotInstalled,
    Downloading { progress_bp: u32, downloaded_bytes: u64, total_bytes: Option<u64> },
    Installed,
    Error(String),
}

#[derive(Clone, Copy, Debug, PartialEq, Eq, Structural)]
pub enum ArchiveFormat {
    Zip,
    TarGz,
    TarBz2,
    File,
}

impl ArchiveFormat {
    /// The file extension of a download in this format.
    pub fn extension(&self) -> (r: &'static str)
        ensures
            r@ == format_extension(*self)@,
    {
        match self {
            ArchiveFormat::Zip => "zip",
            ArchiveFormat::TarGz => "tar.gz",
            ArchiveFormat::TarBz2 => "tar.bz2",
            ArchiveFormat::File => "bin",
        }
    }
}

pub open spec fn format_extension(f: ArchiveFormat) -> &'static str {
    match f {
        ArchiveFormat::Zip => "zip",
        ArchiveFormat::TarGz => "tar.gz",
        ArchiveFormat::TarBz2 => "tar.bz2",
        ArchiveFormat::File => "bin",
    }
}

#[derive(Clone, Debug)]
pub struct ModelArchiveSource {
    pub uri: String,
    pub archive_format: ArchiveFormat,
    pub strip_prefix_components: u8,
}

#[derive(Clone, Debug)]
pub struct ModelHfSource {
    pub repo: String,
    pub revision: Option<String>,
    pub accept_globs: Vec<String>,
    pub reject_globs: Vec<String>,
}

#[derive(Clone, Debug)]
pub enum ModelSource {
    Archive(ModelArchiveSource),
    HfRepo(ModelHfSource),
}

/// One entry of the manifest.
#[derive(Clone, Debug)]
pub struct ModelAsset {
    pub kind: ModelKind,
    pub name: String,
    pub version: String,
    pub checksum: Option<String>,
    pub size_bytes: u64,
    pub status: ModelStatus,
    pub source: Option<ModelSource>,
}

pub open spec fn is_installed(a: ModelAsset) -> bool {
    a.status matches ModelStatus::Installed
}

/// Asset `a` ranks at most as high as `b`: installed first, then by size.
pub open spec fn ranks_le(a: ModelAsset, b: ModelAsset) -> bool {
    (!is_installed(a) && is_installed(b)) || (is_installed(a) == is_installed(b) && a.size_bytes <= b.size_bytes)
}

/// Index `i` is what `primary_asset` picks among `assets` of `kind`: of the
/// highest rank, and the last of those.
pub open spec fn is_primary(assets: Seq<ModelAsset>, kind: ModelKind, i: int) -> bool {
    &&& 0 <= i < assets.len()
    &&& assets[i].kind == kind
    &&& forall|j: int| 0 <= j < assets.len() && assets[j].kind == kind ==> ranks_le(assets[j], assets[i])
    &&& forall|j: int| i < j < assets.len() && assets[j].kind == kind ==> !ranks_le(assets[i], assets[j])
}

/// Assets that this version drops on load.
pub open spec fn is_legacy(a: ModelAsset) -> bool {
    a.kind == ModelKind::Unknown || contains_seq(a.name@, "zipformer"@)
}

pub open spec fn without_legacy(s: Seq<ModelAsset>) -> Seq<ModelAsset>
    decreases s.len(),
{
    if s.len() == 0 {
        s
    } else if is_legacy(s.last()) {
        without_legacy(s.drop_last())
    } else {
        without_legacy(s.drop_last()).push(s.last())
    }
}

pub open spec fn only_legacy(s: Seq<ModelAsset>) -> Seq<ModelAsset>
    decreases s.len(),
{
    if s.len() == 0 {
        s
    } else if is_legacy(s.last()) {
        only_legacy(s.drop_last()).push(s.last())
    } else {
        only_legacy(s.drop_last())
    }
}

/// The first index whose asset is named `name`, if any.
pub open spec fn index_of(assets: Seq<ModelAsset>, name: Seq<char>) -> Option<int> {
    if exists|i: int| 0 <= i < assets.len() && assets[i].name@ == name && forall|k: int| 0 <= k < i ==> assets[k].name@ != name {
        Some(choose|i: int| 0 <= i < assets.len() && assets[i].name@ == name && forall|k: int| 0 <= k < i ==> assets[k].name@ != name)
    } else {
        None
    }
}

/// An existing entry refreshed from a built-in one of the same name: the
/// source always; kind and version only when not installed or failed; a
/// failure demoted to not installed.
pub open spec fn refreshed(existing: ModelAsset, builtin: ModelAsset) -> ModelAsset {
    let open_state = existing.status matches ModelStatus::NotInstalled || existing.status matches ModelStatus::Error(_);
    ModelAsset {
        source: builtin.source,
        kind: if open_state { builtin.kind } else { existing.kind },
        version: if open_state { builtin.version } else { existing.version },
        status: if existing.status matches ModelStatus::Error(_) { ModelStatus::NotInstalled } else { existing.status },
        ..existing
    }
}

pub open spec fn merged_one(assets: Seq<ModelAsset>, builtin: ModelAsset) -> Seq<ModelAsset> {
    match index_of(assets, builtin.name@) {
        Some(i) => assets.update(i, refreshed(assets[i], builtin)),
        None => assets.push(builtin),
    }
}

pub open spec fn merged(assets: Seq<ModelAsset>, builtins: Seq<ModelAsset>) -> Seq<ModelAsset>
    decreases builtins.len(),
{
    if builtins.len() == 0 {
        assets
    } else {
        merged_one(merged(assets, builtins.drop_last()), builtins.last())
    }
}

/// Finds the first asset named `name`.
pub fn find_by_name(assets: &Vec<ModelAsset>, name: &str) -> (r: Option<usize>)
    ensures
        r.is_some() == index_of(assets@, name@).is_some(),
        r.is_some() ==> r.unwrap() as int == index_of(assets@, name@).unwrap() && r.unwrap() < assets@.len(),
{
    let mut i: usize = 0;
    while i < assets.len()
        invariant
            i <= assets@.len(),
            forall|k: int| 0 <= k < i ==> assets@[k].name@ != name@,
        decreases assets@.len() - i,
    {
        if str_eq(assets[i].name.as_str(), name) {
            proof {
                let j = choose|j: int| 0 <= j < assets@.len() && assets@[j].name@ == name@ && forall|k: int| 0 <= k < j ==> assets@[k].name@ != name@;
                assert(j == i as int) by {
                    if j < i {
                    } else if j > i {
                        assert(assets@[i as int].name@ == name@);
                    }
                }
            }
            return Some(i);
        }
        i = i + 1;
    }
    None
}

/// The in-memory manifest.
pub struct ModelManager {
    pub assets: Vec<ModelAsset>,
}

impl ModelManager {
    pub fn from_assets(assets: Vec<ModelAsset>) -> (r: ModelManager)
        ensures
            r.assets@ == assets@,
    {
        ModelManager { assets }
    }

    pub fn assets(&self) -> (r: &Vec<ModelAsset>)
        ensures
            r@ == self.assets@,
    {
        &self.assets
    }

    /// The indices of the assets of `kind`, in order.
    pub fn assets_by_kind(&self, kind: ModelKind) -> (r: Vec<usize>)
        ensures
            forall|k: int| 0 <= k < r@.len() ==> (r@[k] as int) < self.assets@.len() && self.assets@[r@[k] as int].kind == kind,
            forall|i: int| 0 <= i < self.assets@.len() && self.assets@[i].kind == kind ==> r@.contains(i as usize),
            forall|a: int, b: int| 0 <= a < b < r@.len() ==> r@[a] < r@[b],
    {
        let mut out: Vec<usize> = Vec::new();
        let mut i: usize = 0;
        while i < self.assets.len()
            invariant
                i <= self.assets@.len(),
                forall|k: int| 0 <= k < out@.len() ==> (out@[k] as int) < i && self.assets@[out@[k] as int].kind == kind,
                forall|j: int| 0 <= j < i && self.assets@[j].kind == kind ==> out@.contains(j as usize),
                forall|a: int, b: int| 0 <= a < b < out@.len() ==> out@[a] < out@[b],
            decreases self.assets@.len() - i,
        {
            if self.assets[i].kind == kind {
                let ghost prev = out@;
                out.push(i);
                assert(out@[out@.len() - 1] == i);
                assert forall|j: int| 0 <= j < i && self.assets@[j].kind == kind implies out@.contains(j as usize) by {
                    assert(prev.contains(j as usize));
                    let k = choose|k: int| 0 <= k < prev.len() && prev[k] == j as usize;
                    assert(out@[k] == prev[k]);
                }
            }
            i = i + 1;
        }
        out
    }

    /// The asset of `kind` to use: installed ones first, then the largest;
    /// among equals the last one listed.
    pub fn primary_asset(&self, kind: ModelKind) -> (r: Option<&ModelAsset>)
        ensures
            r.is_none() <==> forall|j: int| 0 <= j < self.assets@.len() ==> self.assets@[j].kind != kind,
            r.is_some() ==> exists|i: int| is_primary(self.assets@, kind, i) && *r.unwrap() == self.assets@[i],
    {
        let mut best: Option<usize> = None;
        let mut i: usize = 0;
        while i < self.assets.len()
            invariant
                i <= self.assets@.len(),
                best.is_none() ==> forall|j: int| 0 <= j < i ==> self.assets@[j].kind != kind,
                best.is_some() ==> {
                    let b = best.unwrap() as int;
                    &&& 0 <= b < i
                    &&& self.assets@[b].kind == kind
                    &&& forall|j: int| 0 <= j < i && self.assets@[j].kind == kind ==> ranks_le(self.assets@[j], self.assets@[b])
                    &&& forall|j: int| b < j < i && self.assets@[j].kind == kind ==> !ranks_le(self.assets@[b], self.assets@[j])
                },
            decreases self.assets@.len() - i,
        {
            if self.assets[i].kind == kind {
                match best {
                    None => {
                        best = Some(i);
                    },
                    Some(b) => {
                        let bi = matches!(self.assets[b].status, ModelStatus::Installed);
                        let ii = matches!(self.assets[i].status, ModelStatus::Installed);
                        let cur_ge = (!bi && ii) || (bi == ii && self.assets[b].size_bytes <= self.assets[i].size_bytes);
                        if cur_ge {
                            best = Some(i);
                        }
                    },
                }
            }
            i = i + 1;
        }
        match best {
            None => None,
            Some(b) => Some(&self.assets[b]),
        }
    }

    pub fn asset_by_name(&self, name: &str) -> (r: Option<&ModelAsset>)
        ensures
            r.is_some() == index_of(self.assets@, name@).is_some(),
            r.is_some() ==> *r.unwrap() == self.assets@[index_of(self.assets@, name@).unwrap()],
    {
        match find_by_name(&self.assets, name) {
            Some(i) => Some(&self.assets[i]),
            None => None,
        }
    }

    /// Drops assets of unknown kind and legacy Zipformer assets; returns the
    /// dropped ones so that their directories can be removed.
    pub fn cleanup_legacy_assets(&mut self) -> (removed: Vec<ModelAsset>)
        ensures
            final(self).assets@ == without_legacy(old(self).assets@),
            removed@ == only_legacy(old(self).assets@),
    {
        let mut kept: Vec<ModelAsset> = Vec::new();
        let mut removed: Vec<ModelAsset> = Vec::new();
        let ghost all = self.assets@;
        let mut rest = self.assets.split_off(0);
        let ghost mut pending: Seq<ModelAsset> = Seq::empty();
        assert(all =~= pending + rest@);
        while rest.len() > 0
            invariant
                all == pending + rest@,
                kept@ == without_legacy(pending),
                removed@ == only_legacy(pending),
            decreases rest@.len(),
        {
            let ghost before = rest@;
            let a = rest.remove(0);
            let legacy = a.kind == ModelKind::Unknown || str_contains(a.name.as_str(), "zipformer");
            proof {
                let pre = pending;
                pending = pending.push(a);
                assert(pending.drop_last() =~= pre);
                assert(all =~= pending + rest@);
            }
            if legacy {
                removed.push(a);
            } else {
                kept.push(a);
            }
        }
        assert(pending =~= all);
        self.assets = kept;
        removed
    }
}

impl ModelManager {
    /// Merges the built-in catalogue into the manifest: an entry of the same
    /// name is refreshed, an unknown name is appended, other entries stay.
    pub fn register_defaults(&mut self, builtins: Vec<ModelAsset>)
        ensures
            final(self).assets@ == merged(old(self).assets@, builtins@),
    {
        let ghost all = builtins@;
        let mut rest = builtins;
        let ghost mut done: Seq<ModelAsset> = Seq::empty();
        assert(all =~= done + rest@);
        assert(merged(old(self).assets@, done) == old(self).assets@);
        while rest.len() > 0
            invariant
                all == done + rest@,
                self.assets@ == merged(old(self).assets@, done),
            decreases rest@.len(),
        {
            let d = rest.remove(0);
            self.merge_one(d);
            proof {
                let pre = done;
                done = done.push(d);
                assert(done.drop_last() =~= pre);
                assert(all =~= done + rest@);
            }
        }
        assert(done =~= all);
    }

    fn merge_one(&mut self, d: ModelAsset)
        ensures
            final(self).assets@ == merged_one(old(self).assets@, d),
    {
        match find_by_name(&self.assets, d.name.as_str()) {
            None => {
                self.assets.push(d);
            },
            Some(i) => {
                let existing = self.assets.remove(i);
                let open_state = matches!(existing.status, ModelStatus::NotInstalled) || matches!(existing.status, ModelStatus::Error(_));
                let ModelAsset { kind, name, version, checksum, size_bytes, status, source: _ } = existing;
                let ModelAsset { kind: d_kind, name: _, version: d_version, checksum: _, size_bytes: _, status: _, source: d_source } = d;
                let new_status = match status {
                    ModelStatus::Error(_) => ModelStatus::NotInstalled,
                    other => other,
                };
                let updated = ModelAsset {
                    kind: if open_state { d_kind } else { kind },
                    name,
                    version: if open_state { d_version } else { version },
                    checksum,
                    size_bytes,
                    status: new_status,
                    source: d_source,
                };
                self.assets.insert(i, updated);
                assert(self.assets@ =~= old(self).assets@.update(i as int, refreshed(old(self).assets@[i as int], d)));
            },
        }
    }

    /// Marks the asset named `name` installed with its size and checksum of record.
    pub fn complete_install(&mut self, name: &str, size_bytes: u64, checksum: Option<String>) -> (r: Option<usize>)
        ensures
            r.is_some() == index_of(old(self).assets@, name@).is_some(),
            r.is_none() ==> final(self).assets@ == old(self).assets@,
            r.is_some() ==> r.unwrap() as int == index_of(old(self).assets@, name@).unwrap()
                && final(self).assets@ == old(self).assets@.update(r.unwrap() as int, ModelAsset {
                    status: ModelStatus::Installed,
                    size_bytes,
                    checksum,
                    ..old(self).assets@[r.unwrap() as int]
                }),
    {
        match find_by_name(&self.assets, name) {
            None => None,
            Some(i) => {
                let existing = self.assets.remove(i);
                let ModelAsset { kind, name: n, version, checksum: _, size_bytes: _, status: _, source } = existing;
                let updated = ModelAsset { kind, name: n, version, checksum, size_bytes, status: ModelStatus::Installed, source };
                self.assets.insert(i, updated);
                assert(self.assets@ =~= old(self).assets@.update(i as int, ModelAsset {
                    status: ModelStatus::Installed,
                    size_bytes,
                    checksum,
                    ..old(self).assets@[i as int]
                }));
                Some(i)
            },
        }
    }

    /// Sets the status of the asset named `name`.
    pub fn set_status(&mut self, name: &str, status: ModelStatus) -> (r: Option<usize>)
        ensures
            r.is_some() == index_of(old(self).assets@, name@).is_some(),
            r.is_none() ==> final(self).assets@ == old(self).assets@,
            r.is_some() ==> r.unwrap() as int == index_of(old(self).assets@, name@).unwrap()
                && final(self).assets@ == old(self).assets@.update(r.unwrap() as int, ModelAsset {
                    status,
                    ..old(self).assets@[r.unwrap() as int]
                }),
    {
        match find_by_name(&self.assets, name) {
            None => None,
            Some(i) => {
                let existing = self.assets.remove(i);
                let ModelAsset { kind, name: n, version, checksum, size_bytes, status: _, source } = existing;
                let updated = ModelAsset { kind, name: n, version, checksum, size_bytes, status, source };
                self.assets.insert(i, updated);
                assert(self.assets@ =~= old(self).assets@.update(i as int, ModelAsset {
                    status,
                    ..old(self).assets@[i as int]
                }));
                Some(i)
            },
        }
    }

    /// Forgets the install of the asset named `name` (its directory is
    /// removed by the caller first): no checksum, no size, not installed.
    pub fn uninstall_by_name(&mut self, name: &str) -> (r: Option<usize>)
        ensures
            r.is_some() == index_of(old(self).assets@, name@).is_some(),
            r.is_none() ==> final(self).assets@ == old(self).assets@,
            r.is_some() ==> r.unwrap() as int == index_of(old(self).assets@, name@).unwrap()
                && final(self).assets@ == old(self).assets@.update(r.unwrap() as int, ModelAsset {
                    status: ModelStatus::NotInstalled,
                    size_bytes: 0,
                    checksum: None,
                    ..old(self).assets@[r.unwrap() as int]
                }),
    {
        match find_by_name(&self.assets, name) {
            None => None,
            Some(i) => {
                let existing = self.assets.remove(i);
                let ModelAsset { kind, name: n, version, checksum: _, size_bytes: _, status: _, source } = existing;
                let updated = ModelAsset { kind, name: n, version, checksum: None, size_bytes: 0, status: ModelStatus::NotInstalled, source };
                self.assets.insert(i, updated);
                assert(self.assets@ =~= old(self).assets@.update(i as int, ModelAsset {
                    status: ModelStatus::NotInstalled,
                    size_bytes: 0,
                    checksum: None,
                    ..old(self).assets@[i as int]
                }));
                Some(i)
            },
        }
    }
}

/// What the installer learned about a finished download.
#[derive(Debug)]
pub struct InstallFacts {
    /// Bytes on disk under the destination after extraction.
    pub extracted_size: u64,
    /// Bytes the download reported.
    pub total_size: u64,
    /// Checksum of the downloaded archive, if one was computed.
    pub checksum: Option<String>,
    /// Size and checksum of the asset's reference file (model or tokens file), if found.
    pub reference: Option<(u64, String)>,
    /// Why preparing the model directory failed, if it did.
    pub preparation_error: Option<String>,
}

impl ModelManager {
    /// Records a finished download of the asset named `name`.
    pub fn on_download_success(&mut self, name: &str, facts: InstallFacts) -> (r: Option<usize>)
        ensures
            r.is_some() == index_of(old(self).assets@, name@).is_some(),
            r.is_none() ==> final(self).assets@ == old(self).assets@,
            r matches Some(i) ==> {
                let a = old(self).assets@[i as int];
                let b = final(self).assets@[i as int];
                &&& i as int == index_of(old(self).assets@, name@).unwrap()
                &&& final(self).assets@ == old(self).assets@.update(i as int, b)
                &&& b.kind == a.kind && b.name == a.name && b.version == a.version && b.source == a.source
                &&& (facts.reference matches Some((sz, sum)) ==> b.checksum == Some(sum))
                &&& (facts.reference is None && a.checksum is Some ==> b.checksum == a.checksum)
                &&& (facts.reference is None && a.checksum is None ==> b.checksum == (if facts.preparation_error is None { facts.checksum } else { None }))
                &&& (facts.preparation_error matches Some(e) ==> (b.status matches ModelStatus::Error(m) && m@ == "CT2 model install incomplete: "@ + e@)
                    && b.size_bytes == (match facts.reference { Some((sz, _)) => sz, None => a.size_bytes }))
                &&& (facts.preparation_error is None ==> (b.status matches ModelStatus::Installed)
                    && b.size_bytes == (if facts.extracted_size > 0 { facts.extracted_size } else { facts.total_size }))
            },
    {
        match find_by_name(&self.assets, name) {
            None => None,
            Some(i) => {
                let existing = self.assets.remove(i);
                let ModelAsset { kind, name: n, version, checksum, size_bytes, status: _, source } = existing;
                let InstallFacts { extracted_size, total_size, checksum: archive_sum, reference, preparation_error } = facts;
                let (size0, sum0) = match reference {
                    Some((sz, sum)) => (sz, Some(sum)),
                    None => (size_bytes, checksum),
                };
                let updated = match preparation_error {
                    Some(e) => {
                        let mut message = String::from_str("CT2 model install incomplete: ");
                        message.append(e.as_str());
                        ModelAsset { kind, name: n, version, checksum: sum0, size_bytes: size0, status: ModelStatus::Error(message), source }
                    },
                    None => {
                        let recorded = if extracted_size > 0 { extracted_size } else { total_size };
                        let sum = match sum0 {
                            Some(x) => Some(x),
                            None => archive_sum,
                        };
                        ModelAsset { kind, name: n, version, checksum: sum, size_bytes: recorded, status: ModelStatus::Installed, source }
                    },
                };
                self.assets.insert(i, updated);
                assert(self.assets@ =~= old(self).assets@.update(i as int, self.assets@[i as int]));
                Some(i)
            },
        }
    }
}

/// After an install succeeds (the entry at `i` becomes `installed`), that
/// entry is the primary asset of its kind whenever no other installed asset
/// of that kind is as large.
pub proof fn lemma_install_makes_primary(assets: Seq<ModelAsset>, i: int, installed: ModelAsset)
    requires
        0 <= i < assets.len(),
        is_installed(installed),
        installed.kind == assets[i].kind,
        forall|j: int| 0 <= j < assets.len() && j != i && assets[j].kind == assets[i].kind && is_installed(assets[j]) ==> assets[j].size_bytes < installed.size_bytes,
    ensures
        is_primary(assets.update(i, installed), installed.kind, i),
{
    let after = assets.update(i, installed);
    assert forall|j: int| 0 <= j < after.len() && after[j].kind == installed.kind implies ranks_le(after[j], after[i]) by {
        if j != i {
            assert(after[j] == assets[j]);
        }
    }
    assert forall|j: int| i < j < after.len() && after[j].kind == installed.kind implies !ranks_le(after[i], after[j]) by {
        assert(after[j] == assets[j]);
    }
}

/// The relative directory of an asset under the models root: `<kind>/<name>-<version>`.
pub fn asset_dir(asset: &ModelAsset) -> (r: String)
    ensures
        r@ == kind_dir(asset.kind)@ + "/"@ + asset.name@ + "-"@ + asset.version@,
{
    let mut out = String::from_str(asset.kind.kind_path());
    out.append("/");
    out.append(asset.name.as_str());
    out.append("-");
    out.append(asset.version.as_str());
    out
}

} // verus!
