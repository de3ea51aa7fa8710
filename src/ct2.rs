//! Preparation of a CTranslate2 Whisper model directory: required files
//! moved to the root, and a preprocessor configuration written when missing.
use vstd::prelude::*;
use crate::download::{after_last_pos, find_after_last};
use crate::text::{chars_of, contains_seq, lower_seq, str_contains, str_eq, to_lower_chars};

verus! {

/// One change to make to the model directory.
#[derive(Debug)]
pub enum Ct2Step {
    /// Move the file at relative path `from` to the root as `name`.
    MoveToRoot { from: String, name: String },
    /// Write `preprocessor_config.json` at the root with this text.
    WritePreprocessorConfig { json: String },
}

#[derive(Clone, Debug)]
pub enum Ct2Error {
    /// A required file is nowhere in the directory.
    MissingFile(String),
    /// No vocabulary file is anywhere in the directory.
    MissingVocabulary,
}

/// The file name of a relative path: what follows its last `/`.
pub open spec fn is_base_name(p: Seq<char>, name: Seq<char>) -> bool {
    exists|a: int| after_last_pos(p, '/', a) && p.subrange(a, p.len() as int) == name
}

/// Where a file named `name` is found: at the root, else the first listed
/// path whose file name it is.
pub open spec fn at_root(files: Seq<String>, name: Seq<char>) -> bool {
    exists|i: int| 0 <= i < files.len() && #[trigger] files[i]@ == name
}

pub open spec fn first_named(files: Seq<String>, name: Seq<char>, i: int) -> bool {
    &&& 0 <= i < files.len()
    &&& is_base_name(files[i]@, name)
    &&& forall|j: int| 0 <= j < i ==> !is_base_name(#[trigger] files[j]@, name)
}

/// Whether the file name of `p` is `name`.
fn base_is(p: &str, name: &str) -> (r: bool)
    ensures
        r == is_base_name(p@, name@),
{
    let v = chars_of(p);
    let a = find_after_last(&v, '/');
    let n = name.unicode_len();
    let len = v.len();
    if len - a != n {
        assert forall|b: int| after_last_pos(p@, '/', b) implies p@.subrange(b, p@.len() as int) != name@ by {
            lemma_after_last_unique(p@, a as int, b);
        }
        return false;
    }
    let mut j: usize = 0;
    while j < n
        invariant
            v@ == p@,
            len == v@.len(),
            a + n == len,
            after_last_pos(p@, '/', a as int),
            n == name@.len(),
            j <= n,
            forall|k: int| 0 <= k < j ==> v@[a + k] == name@[k],
        decreases n - j,
    {
        if v[a + j] != name.get_char(j) {
            assert forall|b: int| after_last_pos(p@, '/', b) implies p@.subrange(b, p@.len() as int) != name@ by {
                lemma_after_last_unique(p@, a as int, b);
                assert(p@.subrange(b, p@.len() as int)[j as int] != name@[j as int]);
            }
            return false;
        }
        j = j + 1;
    }
    assert(p@.subrange(a as int, p@.len() as int) =~= name@);
    true
}

proof fn lemma_after_last_unique(s: Seq<char>, a: int, b: int)
    requires
        after_last_pos(s, '/', a),
        after_last_pos(s, '/', b),
    ensures
        a == b,
{
    if a < b {
        assert(s[b - 1] == '/');
    } else if b < a {
        assert(s[a - 1] == '/');
    }
}

fn root_has(files: &Vec<String>, name: &str) -> (r: bool)
    ensures
        r == at_root(files@, name@),
{
    let mut i: usize = 0;
    while i < files.len()
        invariant
            i <= files@.len(),
            forall|j: int| 0 <= j < i ==> files@[j]@ != name@,
        decreases files@.len() - i,
    {
        if str_eq(files[i].as_str(), name) {
            return true;
        }
        i = i + 1;
    }
    false
}

fn find_named(files: &Vec<String>, name: &str) -> (r: Option<usize>)
    ensures
        r.is_some() ==> first_named(files@, name@, r.unwrap() as int),
        r.is_none() ==> forall|j: int| 0 <= j < files@.len() ==> !is_base_name(#[trigger] files@[j]@, name@),
{
    let mut i: usize = 0;
    while i < files.len()
        invariant
            i <= files@.len(),
            forall|j: int| 0 <= j < i ==> !is_base_name(#[trigger] files@[j]@, name@),
        decreases files@.len() - i,
    {
        if base_is(files[i].as_str(), name) {
            return Some(i);
        }
        i = i + 1;
    }
    None
}

/// The step, if any, that brings a required file to the root.
pub open spec fn root_step_ok(files: Seq<String>, name: Seq<char>, r: Result<Option<Ct2Step>, Ct2Error>) -> bool {
    if at_root(files, name) {
        r matches Ok(None)
    } else if exists|i: int| first_named(files, name, i) {
        r matches Ok(Some(Ct2Step::MoveToRoot { from, name: n })) && n@ == name && exists|i: int| first_named(files, name, i) && files[i]@ == from@
    } else {
        r matches Err(Ct2Error::MissingFile(n)) && n@ == name
    }
}

/// Brings `name` to the root: nothing when it is there, a move of the first
/// listed file of that name otherwise, an error when there is none.
pub fn ensure_file_at_root(files: &Vec<String>, name: &str) -> (r: Result<Option<Ct2Step>, Ct2Error>)
    ensures
        root_step_ok(files@, name@, r),
{
    if root_has(files, name) {
        return Ok(None);
    }
    match find_named(files, name) {
        Some(i) => Ok(Some(Ct2Step::MoveToRoot { from: files[i].clone(), name: String::from_str(name) })),
        None => Err(Ct2Error::MissingFile(String::from_str(name))),
    }
}

/// No listed file is named `name`.
pub open spec fn nowhere(files: Seq<String>, name: Seq<char>) -> bool {
    forall|j: int| 0 <= j < files.len() ==> !is_base_name(#[trigger] files[j]@, name)
}

/// The vocabulary file names, in order of preference.
pub open spec fn vocab_names() -> Seq<Seq<char>> {
    seq!["vocabulary.txt"@, "vocabulary.json"@, "vocab.json"@, "vocab.txt"@]
}

/// Brings one vocabulary file to the root: nothing when one is there; else a
/// move of the first listed file of the first name found anywhere.
pub fn ensure_any_file_at_root(files: &Vec<String>) -> (r: Result<Option<Ct2Step>, Ct2Error>)
    ensures
        (exists|k: int| 0 <= k < 4 && at_root(files@, #[trigger] vocab_names()[k])) ==> (r matches Ok(None)),
        !(exists|k: int| 0 <= k < 4 && at_root(files@, #[trigger] vocab_names()[k])) ==> match r {
            Ok(Some(Ct2Step::MoveToRoot { from, name })) => exists|k: int| 0 <= k < 4 && #[trigger] vocab_names()[k] == name@
                && (forall|m: int| 0 <= m < k ==> nowhere(files@, #[trigger] vocab_names()[m]))
                && exists|i: int| first_named(files@, name@, i) && files@[i]@ == from@,
            Ok(_) => false,
            Err(e) => (e matches Ct2Error::MissingVocabulary) && forall|m: int| 0 <= m < 4 ==> nowhere(files@, #[trigger] vocab_names()[m]),
        },
{
    let names: [&str; 4] = ["vocabulary.txt", "vocabulary.json", "vocab.json", "vocab.txt"];
    assert(names@.map_values(|n: &str| n@) =~= vocab_names());
    let mut k: usize = 0;
    while k < 4
        invariant
            k <= 4,
            names@.map_values(|n: &str| n@) == vocab_names(),
            forall|m: int| 0 <= m < k ==> !at_root(files@, #[trigger] vocab_names()[m]),
        decreases 4 - k,
    {
        assert(names@[k as int]@ == vocab_names()[k as int]);
        if root_has(files, names[k]) {
            return Ok(None);
        }
        k = k + 1;
    }
    let mut k: usize = 0;
    while k < 4
        invariant
            k <= 4,
            names@.map_values(|n: &str| n@) == vocab_names(),
            forall|m: int| 0 <= m < 4 ==> !at_root(files@, #[trigger] vocab_names()[m]),
            forall|m: int| 0 <= m < k ==> nowhere(files@, #[trigger] vocab_names()[m]),
        decreases 4 - k,
    {
        assert(names@[k as int]@ == vocab_names()[k as int]);
        match find_named(files, names[k]) {
            Some(i) => {
                let step = Ct2Step::MoveToRoot { from: files[i].clone(), name: String::from_str(names[k]) };
                return Ok(Some(step));
            },
            None => {},
        }
        k = k + 1;
    }
    Err(Ct2Error::MissingVocabulary)
}

/// 128 mel bins for models whose directory name mentions `large`, else 80.
pub fn infer_feature_size(dir_name: &str) -> (r: u32)
    ensures
        r == (if contains_seq(lower_seq(dir_name@), "large"@) { 128u32 } else { 80u32 }),
{
    let lower = to_lower_chars(dir_name);
    let mut s = String::new();
    let mut i: usize = 0;
    while i < lower.len()
        invariant
            i <= lower@.len(),
            s@ == lower@.subrange(0, i as int),
        decreases lower@.len() - i,
    {
        crate::download::append_char(&mut s, lower[i]);
        i = i + 1;
        assert(s@ =~= lower@.subrange(0, i as int));
    }
    assert(lower@.subrange(0, lower@.len() as int) =~= lower@);
    if str_contains(s.as_str(), "large") {
        128
    } else {
        80
    }
}

/// The synthesized `preprocessor_config.json`, as pretty-printed JSON.
pub open spec fn preprocessor_json(feature_size: Seq<char>) -> Seq<char> {
    "{\n  \"chunk_length\": 30,\n  \"feature_extractor_type\": \"WhisperFeatureExtractor\",\n  \"feature_size\": "@ + feature_size
        + ",\n  \"hop_length\": 160,\n  \"n_fft\": 400,\n  \"n_samples\": 480000,\n  \"nb_max_frames\": 3000,\n  \"padding_side\": \"right\",\n  \"padding_value\": 0.0,\n  \"processor_class\": \"WhisperProcessor\",\n  \"return_attention_mask\": false,\n  \"sampling_rate\": 16000\n}"@
}

pub fn preprocessor_config_json(feature_size: u32) -> (r: String)
    requires
        feature_size == 80 || feature_size == 128,
    ensures
        r@ == preprocessor_json((if feature_size == 128 { "128" } else { "80" })@),
{
    let mut out = String::from_str("{\n  \"chunk_length\": 30,\n  \"feature_extractor_type\": \"WhisperFeatureExtractor\",\n  \"feature_size\": ");
    out.append(if feature_size == 128 { "128" } else { "80" });
    out.append(",\n  \"hop_length\": 160,\n  \"n_fft\": 400,\n  \"n_samples\": 480000,\n  \"nb_max_frames\": 3000,\n  \"padding_side\": \"right\",\n  \"padding_value\": 0.0,\n  \"processor_class\": \"WhisperProcessor\",\n  \"return_attention_mask\": false,\n  \"sampling_rate\": 16000\n}");
    out
}

/// `s` moves the first listed file named `name` to the root.
pub open spec fn is_move_of(s: Ct2Step, files: Seq<String>, name: Seq<char>) -> bool {
    s matches Ct2Step::MoveToRoot { from, name: n } && n@ == name && exists|i: int| first_named(files, name, i) && files[i]@ == from@
}

/// Some step moves `name` to the root.
pub open spec fn moves(steps: Seq<Ct2Step>, files: Seq<String>, name: Seq<char>) -> bool {
    exists|k: int| 0 <= k < steps.len() && is_move_of(#[trigger] steps[k], files, name)
}

proof fn lemma_moves_push(steps: Seq<Ct2Step>, x: Ct2Step, files: Seq<String>, name: Seq<char>)
    requires
        moves(steps, files, name),
    ensures
        moves(steps.push(x), files, name),
{
    let k = choose|k: int| 0 <= k < steps.len() && is_move_of(#[trigger] steps[k], files, name);
    assert(steps.push(x)[k] == steps[k]);
}

/// The changes that make a downloaded CTranslate2 directory usable, from
/// the name of the directory and the relative paths of all its files:
/// `model.bin`, `config.json`, `tokenizer.json` and a vocabulary file moved
/// to the root, and the preprocessor configuration moved there or written.
pub fn prepare_ct2_model_dir(dir_name: &str, files: &Vec<String>) -> (r: Result<Vec<Ct2Step>, Ct2Error>)
    ensures
        r is Ok <==> ((at_root(files@, "model.bin"@) || exists|i: int| first_named(files@, "model.bin"@, i))
            && (at_root(files@, "config.json"@) || exists|i: int| first_named(files@, "config.json"@, i))
            && (at_root(files@, "tokenizer.json"@) || exists|i: int| first_named(files@, "tokenizer.json"@, i))
            && exists|m: int| 0 <= m < 4 && (at_root(files@, #[trigger] vocab_names()[m]) || !nowhere(files@, vocab_names()[m]))),
        (r matches Ok(steps) && !at_root(files@, "preprocessor_config.json"@) && !exists|i: int| first_named(files@, "preprocessor_config.json"@, i)) ==> (
            r matches Ok(steps) && steps@.len() >= 1 && (steps@.last() matches Ct2Step::WritePreprocessorConfig { json }
            && json@ == preprocessor_json((if contains_seq(lower_seq(dir_name@), "large"@) { "128" } else { "80" })@))),
        r matches Ok(steps) ==> (!at_root(files@, "model.bin"@) ==> moves(steps@, files@, "model.bin"@))
            && (!at_root(files@, "config.json"@) ==> moves(steps@, files@, "config.json"@))
            && (!at_root(files@, "tokenizer.json"@) ==> moves(steps@, files@, "tokenizer.json"@))
            && (!(exists|m: int| 0 <= m < 4 && at_root(files@, #[trigger] vocab_names()[m])) ==> exists|m: int| 0 <= m < 4 && moves(steps@, files@, #[trigger] vocab_names()[m]))
            && ((!at_root(files@, "preprocessor_config.json"@) && exists|i: int| first_named(files@, "preprocessor_config.json"@, i))
                ==> moves(steps@, files@, "preprocessor_config.json"@)),
{
    let mut steps: Vec<Ct2Step> = Vec::new();
    let required: [&str; 3] = ["model.bin", "config.json", "tokenizer.json"];
    let mut k: usize = 0;
    while k < 3
        invariant
            k <= 3,
            required@.map_values(|n: &str| n@) == seq!["model.bin"@, "config.json"@, "tokenizer.json"@],
            steps@.len() <= k,
            forall|m: int| 0 <= m < k ==> (at_root(files@, #[trigger] required@[m]@) || exists|i: int| first_named(files@, required@[m]@, i)),
            forall|m: int| 0 <= m < k ==> (at_root(files@, #[trigger] required@[m]@) || moves(steps@, files@, required@[m]@)),
        decreases 3 - k,
    {
        match ensure_file_at_root(files, required[k]) {
            Ok(Some(step)) => {
                let ghost before = steps@;
                steps.push(step);
                proof {
                    assert forall|m: int| 0 <= m < k && !at_root(files@, #[trigger] required@[m]@) implies moves(steps@, files@, required@[m]@) by {
                        lemma_moves_push(before, step, files@, required@[m]@);
                    }
                    assert(is_move_of(steps@[steps@.len() - 1], files@, required@[k as int]@));
                }
            },
            Ok(None) => {},
            Err(e) => {
                assert(required@.map_values(|n: &str| n@)[k as int] == required@[k as int]@);
                return Err(e);
            },
        }
        k = k + 1;
    }
    assert(required@.map_values(|n: &str| n@)[0] == required@[0]@);
    assert(required@.map_values(|n: &str| n@)[1] == required@[1]@);
    assert(required@.map_values(|n: &str| n@)[2] == required@[2]@);
    let ghost req = seq!["model.bin"@, "config.json"@, "tokenizer.json"@];
    assert(forall|m: int| 0 <= m < 3 ==> required@[m]@ == #[trigger] req[m]);
    match ensure_any_file_at_root(files) {
        Ok(Some(step)) => {
            let ghost before = steps@;
            steps.push(step);
            proof {
                assert forall|m: int| 0 <= m < 3 && !at_root(files@, #[trigger] req[m]) implies moves(steps@, files@, req[m]) by {
                    assert(required@[m]@ == req[m]);
                    lemma_moves_push(before, step, files@, req[m]);
                }
                let last = steps@.len() - 1;
                let kk = choose|kk: int| 0 <= kk < 4 && #[trigger] vocab_names()[kk] == (match step { Ct2Step::MoveToRoot { from, name } => name@, _ => Seq::<char>::empty() })
                    && (forall|m: int| 0 <= m < kk ==> nowhere(files@, #[trigger] vocab_names()[m]))
                    && exists|i: int| first_named(files@, vocab_names()[kk], i) && files@[i]@ == (match step { Ct2Step::MoveToRoot { from, name } => from@, _ => Seq::<char>::empty() });
                assert(is_move_of(steps@[last], files@, vocab_names()[kk]));
            }
        },
        Ok(None) => {},
        Err(e) => {
            return Err(e);
        },
    }
    let ghost mid = steps@;
    match ensure_file_at_root(files, "preprocessor_config.json") {
        Ok(Some(step)) => {
            steps.push(step);
            proof {
                assert(is_move_of(steps@[steps@.len() - 1], files@, "preprocessor_config.json"@));
            }
        },
        Ok(None) => {},
        Err(_) => {
            let size = infer_feature_size(dir_name);
            steps.push(Ct2Step::WritePreprocessorConfig { json: preprocessor_config_json(size) });
        },
    }
    proof {
        if steps@.len() > mid.len() {
            assert(steps@ == mid.push(steps@.last()));
            assert forall|m: int| 0 <= m < 3 && !at_root(files@, #[trigger] req[m]) implies moves(steps@, files@, req[m]) by {
                assert(required@[m]@ == req[m]);
                lemma_moves_push(mid, steps@.last(), files@, req[m]);
            }
            if !(exists|m: int| 0 <= m < 4 && at_root(files@, #[trigger] vocab_names()[m])) {
                let m = choose|m: int| 0 <= m < 4 && moves(mid, files@, #[trigger] vocab_names()[m]);
                lemma_moves_push(mid, steps@.last(), files@, vocab_names()[m]);
            }
        }
        assert(at_root(files@, "model.bin"@) || moves(steps@, files@, req[0]));
        assert(at_root(files@, "config.json"@) || moves(steps@, files@, req[1]));
        assert(at_root(files@, "tokenizer.json"@) || moves(steps@, files@, req[2]));
    }
    Ok(steps)
}

/// The file name of a relative path.
pub open spec fn base_of(p: Seq<char>, b: Seq<char>) -> bool {
    exists|a: int| after_last_pos(p, '/', a) && p.subrange(a, p.len() as int) == b
}

fn base_name(p: &str) -> (r: &str)
    ensures
        base_of(p@, r@),
{
    let v = chars_of(p);
    let a = find_after_last(&v, '/');
    let r = p.substring_char(a, v.len());
    assert(after_last_pos(p@, '/', a as int) && p@.subrange(a as int, p@.len() as int) == r@);
    r
}

/// The file whose name contains `token` that records an ONNX or Parakeet
/// install: `tokens.txt` at the root, else the first such file listed.
pub fn find_tokens_file(files: &Vec<String>) -> (r: Option<usize>)
    ensures
        at_root(files@, "tokens.txt"@) ==> (r matches Some(i) && files@[i as int]@ == "tokens.txt"@),
        !at_root(files@, "tokens.txt"@) ==> match r {
            Some(i) => i < files@.len() && (exists|b: Seq<char>| base_of(files@[i as int]@, b) && contains_seq(b, "token"@))
                && forall|j: int| 0 <= j < i ==> !exists|b: Seq<char>| base_of(#[trigger] files@[j]@, b) && contains_seq(b, "token"@),
            None => forall|j: int| 0 <= j < files@.len() ==> !exists|b: Seq<char>| base_of(#[trigger] files@[j]@, b) && contains_seq(b, "token"@),
        },
{
    let mut i: usize = 0;
    while i < files.len()
        invariant
            i <= files@.len(),
            forall|j: int| 0 <= j < i ==> files@[j]@ != "tokens.txt"@,
        decreases files@.len() - i,
    {
        if str_eq(files[i].as_str(), "tokens.txt") {
            return Some(i);
        }
        i = i + 1;
    }
    let mut i: usize = 0;
    while i < files.len()
        invariant
            i <= files@.len(),
            !at_root(files@, "tokens.txt"@),
            forall|j: int| 0 <= j < i ==> !exists|b: Seq<char>| base_of(#[trigger] files@[j]@, b) && contains_seq(b, "token"@),
        decreases files@.len() - i,
    {
        let b = base_name(files[i].as_str());
        if str_contains(b, "token") {
            return Some(i);
        }
        assert forall|bb: Seq<char>| base_of(files@[i as int]@, bb) implies !contains_seq(bb, "token"@) by {
            let a1 = choose|a: int| after_last_pos(files@[i as int]@, '/', a) && files@[i as int]@.subrange(a, files@[i as int]@.len() as int) == b@;
            let a2 = choose|a: int| after_last_pos(files@[i as int]@, '/', a) && files@[i as int]@.subrange(a, files@[i as int]@.len() as int) == bb;
            lemma_after_last_unique(files@[i as int]@, a1, a2);
        }
        i = i + 1;
    }
    None
}
/// `b` ends with `suffix`.
pub open spec fn has_suffix(b: Seq<char>, suffix: Seq<char>) -> bool {
    b.len() >= suffix.len() && b.subrange(b.len() - suffix.len(), b.len() as int) == suffix
}

fn ends_with_str(b: &str, suffix: &str) -> (r: bool)
    ensures
        r == has_suffix(b@, suffix@),
{
    let n = b.unicode_len();
    let m = suffix.unicode_len();
    if m > n {
        return false;
    }
    let tail = b.substring_char(n - m, n);
    crate::text::str_eq(tail, suffix)
}

/// The first listed file whose name ends with `ext` (the VAD model is the
/// first `onnx` file).
pub fn find_first_with_extension(files: &Vec<String>, ext: &str) -> (r: Option<usize>)
    ensures
        match r {
            Some(i) => i < files@.len() && (exists|b: Seq<char>| base_of(files@[i as int]@, b) && has_suffix(b, ext@))
                && forall|j: int| 0 <= j < i ==> !exists|b: Seq<char>| base_of(#[trigger] files@[j]@, b) && has_suffix(b, ext@),
            None => forall|j: int| 0 <= j < files@.len() ==> !exists|b: Seq<char>| base_of(#[trigger] files@[j]@, b) && has_suffix(b, ext@),
        },
{
    let mut i: usize = 0;
    while i < files.len()
        invariant
            i <= files@.len(),
            forall|j: int| 0 <= j < i ==> !exists|b: Seq<char>| base_of(#[trigger] files@[j]@, b) && has_suffix(b, ext@),
        decreases files@.len() - i,
    {
        let b = base_name(files[i].as_str());
        if ends_with_str(b, ext) {
            return Some(i);
        }
        assert forall|bb: Seq<char>| base_of(files@[i as int]@, bb) implies !has_suffix(bb, ext@) by {
            let a1 = choose|a: int| after_last_pos(files@[i as int]@, '/', a) && files@[i as int]@.subrange(a, files@[i as int]@.len() as int) == b@;
            let a2 = choose|a: int| after_last_pos(files@[i as int]@, '/', a) && files@[i as int]@.subrange(a, files@[i as int]@.len() as int) == bb;
            lemma_after_last_unique(files@[i as int]@, a1, a2);
        }
        i = i + 1;
    }
    None
}
} // verus!
