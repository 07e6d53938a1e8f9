use vstd::prelude::*;
use vstd::string::StringExecFns;

use crate::path_guard::{contains_path, in_recycle_bin, spec_contains_path, spec_in_recycle_bin, spec_normalized};
use crate::settings::Settings;

verus! {

/// What the bin window is told about a drop once it has been handled.
#[derive(Clone, Debug, PartialEq, Eq)]
pub struct BinResult {
    pub ok: bool,
    pub error: Option<String>,
    pub cancelled: Option<bool>,
}

impl BinResult {
    /// The dropped items went to the recycle bin.
    pub fn success() -> (r: BinResult)
        ensures
            r.ok,
            r.error is None,
            r.cancelled is None,
    {
        BinResult { ok: true, error: None, cancelled: None }
    }

    /// The drop failed for the given reason.
    pub fn failure(error: String) -> (r: BinResult)
        ensures
            !r.ok,
            r.error == Some(error),
            r.cancelled is None,
    {
        BinResult { ok: false, error: Some(error), cancelled: None }
    }

    /// The user declined to recycle the items.
    pub fn cancelled() -> (r: BinResult)
        ensures
            !r.ok,
            r.error is None,
            r.cancelled == Some(true),
    {
        BinResult { ok: false, error: None, cancelled: Some(true) }
    }
}

/// What the file system said about one dropped path, gathered before the
/// drop is judged.
pub struct DropCandidate {
    /// The path as shown to the user.
    pub shown: String,
    /// The path is absolute.
    pub absolute: bool,
    /// The path has a final component (it is no drive root such as `C:\`).
    pub has_file_name: bool,
    /// Reading the path's own metadata (without following links); the error text otherwise.
    pub metadata: Result<(), String>,
    /// The canonical form of the path; the error text otherwise.
    pub canonical: Result<String, String>,
    /// Whether the volume holding the path is a fixed local disk; the error
    /// text when the volume could not be determined.
    pub fixed_volume: Result<bool, String>,
}

/// A file or folder of the application itself that must never be recycled.
pub struct ProtectedPath {
    /// Its canonical form, when it exists.
    pub canonical: Option<String>,
    /// It is a folder.
    pub is_dir: bool,
}

/// Why a drop was refused.
#[derive(Clone, Debug, PartialEq, Eq)]
pub enum DropError {
    /// Nothing was dropped.
    NothingDropped,
    /// A drive root or a path that is not absolute.
    InvalidPath(String),
    /// The path could not be read or resolved: the path as shown and the system's message.
    Unreadable(String, String),
    /// The item already lies in a recycle bin.
    InsideRecycleBin,
    /// The item is, holds or lies inside the application's own files.
    ProtectedData(String),
    /// Two dropped items are the same or one lies inside the other.
    Overlapping,
    /// The volume of the path could not be determined: the path and the system's message.
    UnknownVolume(String, String),
    /// The path is on a network or removable volume.
    UnsupportedVolume(String),
}

/// A protected entry that rules out the canonical path `canon`.
pub open spec fn protected_hit(canon: Seq<char>, own: ProtectedPath) -> bool {
    match own.canonical {
        Some(o) => spec_contains_path(canon, o@) || (own.is_dir && spec_contains_path(o@, canon)),
        None => false,
    }
}

/// Some protected entry rules out `canon`.
pub open spec fn touches_protected(canon: Seq<char>, protected: Seq<ProtectedPath>) -> bool {
    exists|k: int| 0 <= k < protected.len() && #[trigger] protected_hit(canon, protected[k])
}

/// `a` and `b` are the same path or one lies inside the other.
pub open spec fn overlapping(a: Seq<char>, b: Seq<char>) -> bool {
    spec_contains_path(a, b) || spec_contains_path(b, a)
}

/// `canon` overlaps one of the paths accepted before it.
pub open spec fn overlaps_earlier(canon: Seq<char>, earlier: Seq<Seq<char>>) -> bool {
    exists|k: int| 0 <= k < earlier.len() && #[trigger] overlapping(earlier[k], canon)
}

/// The canonical text of a candidate (empty when it has none).
pub open spec fn canonical_of(c: DropCandidate) -> Seq<char> {
    match c.canonical {
        Ok(p) => p@,
        Err(_) => Seq::empty(),
    }
}

/// The canonical texts of the given candidates, in order.
pub open spec fn canonicals(cands: Seq<DropCandidate>) -> Seq<Seq<char>> {
    cands.map_values(|c: DropCandidate| canonical_of(c))
}

/// The first reason, in the order the checks are made, to refuse one
/// candidate given the candidates accepted before it.
pub open spec fn rejection(
    c: DropCandidate,
    earlier: Seq<Seq<char>>,
    protected: Seq<ProtectedPath>,
) -> Option<DropError> {
    if !c.absolute || !c.has_file_name {
        Some(DropError::InvalidPath(c.shown))
    } else {
        match c.metadata {
            Err(e) => Some(DropError::Unreadable(c.shown, e)),
            Ok(_) => match c.canonical {
                Err(e) => Some(DropError::Unreadable(c.shown, e)),
                Ok(p) => if spec_in_recycle_bin(p@) {
                    Some(DropError::InsideRecycleBin)
                } else if touches_protected(p@, protected) {
                    Some(DropError::ProtectedData(c.shown))
                } else if overlaps_earlier(p@, earlier) {
                    Some(DropError::Overlapping)
                } else {
                    match c.fixed_volume {
                        Err(e) => Some(DropError::UnknownVolume(c.shown, e)),
                        Ok(fixed) => if fixed {
                            None
                        } else {
                            Some(DropError::UnsupportedVolume(c.shown))
                        },
                    }
                },
            },
        }
    }
}

/// The verdict on the candidates from index `i` on, the earlier ones
/// having been accepted.
pub open spec fn verdict_from(
    cands: Seq<DropCandidate>,
    protected: Seq<ProtectedPath>,
    i: int,
) -> Result<(), DropError>
    decreases cands.len() - i,
{
    if i < 0 || i >= cands.len() {
        Ok(())
    } else {
        match rejection(cands[i], canonicals(cands.take(i)), protected) {
            Some(e) => Err(e),
            None => verdict_from(cands, protected, i + 1),
        }
    }
}

/// The verdict on a whole drop: refused when empty, otherwise the first
/// refusal of a candidate in drop order.
pub open spec fn spec_validate_paths(
    cands: Seq<DropCandidate>,
    protected: Seq<ProtectedPath>,
) -> Result<(), DropError> {
    if cands.len() == 0 {
        Err(DropError::NothingDropped)
    } else {
        verdict_from(cands, protected, 0)
    }
}

/// Whether `canon` is ruled out by one of the application's own paths.
fn check_protected(canon: &String, protected: &Vec<ProtectedPath>) -> (hit: bool)
    ensures
        hit == touches_protected(canon@, protected@),
{
    let mut k: usize = 0;
    while k < protected.len()
        invariant
            k <= protected.len(),
            forall|j: int| 0 <= j < k ==> !#[trigger] protected_hit(canon@, protected@[j]),
        decreases protected.len() - k,
    {
        let own = &protected[k];
        match &own.canonical {
            Some(o) => {
                if contains_path(canon.as_str(), o.as_str()) || (own.is_dir && contains_path(o.as_str(), canon.as_str())) {
                    assert(protected_hit(canon@, protected@[k as int]));
                    return true;
                }
            },
            None => {},
        }
        k = k + 1;
    }
    false
}

/// Whether `canon` overlaps one of the paths accepted so far.
fn check_overlap(canon: &String, resolved: &Vec<String>) -> (hit: bool)
    ensures
        hit == overlaps_earlier(canon@, resolved@.map_values(|s: String| s@)),
{
    let ghost earlier = resolved@.map_values(|s: String| s@);
    let mut k: usize = 0;
    while k < resolved.len()
        invariant
            k <= resolved.len(),
            earlier == resolved@.map_values(|s: String| s@),
            forall|j: int| 0 <= j < k ==> !#[trigger] overlapping(earlier[j], canon@),
        decreases resolved.len() - k,
    {
        let other = &resolved[k];
        if contains_path(other.as_str(), canon.as_str()) || contains_path(canon.as_str(), other.as_str()) {
            assert(overlapping(earlier[k as int], canon@));
            return true;
        }
        k = k + 1;
    }
    false
}

/// The first reason to refuse one candidate, given the paths accepted before it.
fn check_candidate(
    c: &DropCandidate,
    resolved: &Vec<String>,
    protected: &Vec<ProtectedPath>,
) -> (r: Option<DropError>)
    ensures
        r == rejection(*c, resolved@.map_values(|s: String| s@), protected@),
{
    if !c.absolute || !c.has_file_name {
        return Some(DropError::InvalidPath(c.shown.clone()));
    }
    if let Err(e) = &c.metadata {
        return Some(DropError::Unreadable(c.shown.clone(), e.clone()));
    }
    let canon = match &c.canonical {
        Ok(p) => p,
        Err(e) => {
            return Some(DropError::Unreadable(c.shown.clone(), e.clone()));
        },
    };
    if in_recycle_bin(canon.as_str()) {
        return Some(DropError::InsideRecycleBin);
    }
    if check_protected(canon, protected) {
        return Some(DropError::ProtectedData(c.shown.clone()));
    }
    if check_overlap(canon, resolved) {
        return Some(DropError::Overlapping);
    }
    match &c.fixed_volume {
        Err(e) => Some(DropError::UnknownVolume(c.shown.clone(), e.clone())),
        Ok(fixed) => if *fixed {
            None
        } else {
            Some(DropError::UnsupportedVolume(c.shown.clone()))
        },
    }
}

/// Decides whether a drop may go to the recycle bin. Each candidate is
/// checked in drop order: it must be an absolute path with a final
/// component, readable and resolvable, outside every recycle bin, apart
/// from the application's own files, apart from every item dropped before
/// it, and on a fixed local disk. The first failed check is reported.
pub fn validate_paths(
    candidates: &Vec<DropCandidate>,
    protected: &Vec<ProtectedPath>,
) -> (r: Result<(), DropError>)
    ensures
        r == spec_validate_paths(candidates@, protected@),
{
    if candidates.len() == 0 {
        return Err(DropError::NothingDropped);
    }
    let mut resolved: Vec<String> = Vec::new();
    let mut i: usize = 0;
    while i < candidates.len()
        invariant
            0 < candidates.len(),
            i <= candidates.len(),
            resolved@.map_values(|s: String| s@) == canonicals(candidates@.take(i as int)),
            verdict_from(candidates@, protected@, 0) == verdict_from(candidates@, protected@, i as int),
        decreases candidates.len() - i,
    {
        let c = &candidates[i];
        proof {
            assert(candidates@.take(i as int).len() == i);
        }
        if let Some(e) = check_candidate(c, &resolved, protected) {
            return Err(e);
        }
        let canon = match &c.canonical {
            Ok(p) => p.clone(),
            Err(_) => String::new(),
        };
        let ghost before = resolved@;
        resolved.push(canon);
        proof {
            assert(candidates@.take(i + 1) =~= candidates@.take(i as int).push(candidates@[i as int]));
            assert(resolved@ == before.push(canon));
            assert(resolved@.map_values(|s: String| s@) =~= before.map_values(|s: String| s@).push(canon@));
            assert(canonicals(candidates@.take(i + 1)) =~= canonicals(candidates@.take(i as int)).push(canonical_of(candidates@[i as int])));
        }
        i = i + 1;
    }
    Ok(())
}

/// A candidate that passes every check that concerns it alone.
pub open spec fn candidate_acceptable(c: DropCandidate, protected: Seq<ProtectedPath>) -> bool {
    &&& c.absolute
    &&& c.has_file_name
    &&& c.metadata is Ok
    &&& c.canonical is Ok
    &&& !spec_in_recycle_bin(canonical_of(c))
    &&& !touches_protected(canonical_of(c), protected)
    &&& c.fixed_volume == Ok::<bool, String>(true)
}

/// A drop that may safely go to the recycle bin: something was dropped,
/// every item is acceptable on its own, and no two items overlap.
pub open spec fn drop_is_safe(cands: Seq<DropCandidate>, protected: Seq<ProtectedPath>) -> bool {
    &&& cands.len() > 0
    &&& forall|i: int| 0 <= i < cands.len() ==> #[trigger] candidate_acceptable(cands[i], protected)
    &&& forall|i: int, j: int|
        0 <= i < j < cands.len() ==> !overlapping(
            #[trigger] canonical_of(cands[i]),
            #[trigger] canonical_of(cands[j]),
        )
}

proof fn lemma_rejection_none(c: DropCandidate, earlier: Seq<Seq<char>>, protected: Seq<ProtectedPath>)
    ensures
        rejection(c, earlier, protected) is None <==> (candidate_acceptable(c, protected)
            && !overlaps_earlier(canonical_of(c), earlier)),
{
}

proof fn lemma_verdict_from(cands: Seq<DropCandidate>, protected: Seq<ProtectedPath>, i: int)
    requires
        0 <= i <= cands.len(),
    ensures
        verdict_from(cands, protected, i) is Ok <==> forall|j: int|
            i <= j < cands.len() ==> #[trigger] rejection(cands[j], canonicals(cands.take(j)), protected) is None,
    decreases cands.len() - i,
{
    if i < cands.len() {
        lemma_verdict_from(cands, protected, i + 1);
    }
}

proof fn lemma_overlaps_earlier(cands: Seq<DropCandidate>, j: int)
    requires
        0 <= j < cands.len(),
    ensures
        overlaps_earlier(canonical_of(cands[j]), canonicals(cands.take(j))) <==> exists|k: int|
            0 <= k < j && #[trigger] overlapping(canonical_of(cands[k]), canonical_of(cands[j])),
{
    let earlier = canonicals(cands.take(j));
    assert forall|k: int| 0 <= k < j implies earlier[k] == canonical_of(cands[k]) by {
        assert(cands.take(j)[k] == cands[k]);
    }
    if overlaps_earlier(canonical_of(cands[j]), earlier) {
        let k = choose|k: int| 0 <= k < earlier.len() && #[trigger] overlapping(earlier[k], canonical_of(cands[j]));
        assert(overlapping(canonical_of(cands[k]), canonical_of(cands[j])));
    }
    if exists|k: int| 0 <= k < j && #[trigger] overlapping(canonical_of(cands[k]), canonical_of(cands[j])) {
        let k = choose|k: int| 0 <= k < j && #[trigger] overlapping(canonical_of(cands[k]), canonical_of(cands[j]));
        assert(overlapping(earlier[k], canonical_of(cands[j])));
    }
}

/// A drop is accepted exactly when it is safe: something was dropped; every
/// item is an absolute, readable path with a final component, outside every
/// recycle bin, apart from the application's own files and on a fixed local
/// disk; and no two items are the same or nested in one another.
pub proof fn lemma_accepted_iff_safe(cands: Seq<DropCandidate>, protected: Seq<ProtectedPath>)
    ensures
        spec_validate_paths(cands, protected) is Ok <==> drop_is_safe(cands, protected),
{
    if cands.len() > 0 {
        lemma_verdict_from(cands, protected, 0);
        let all_pass = forall|j: int|
            0 <= j < cands.len() ==> #[trigger] rejection(cands[j], canonicals(cands.take(j)), protected) is None;
        if all_pass {
            assert forall|i: int| 0 <= i < cands.len() implies #[trigger] candidate_acceptable(cands[i], protected) by {
                lemma_rejection_none(cands[i], canonicals(cands.take(i)), protected);
                assert(rejection(cands[i], canonicals(cands.take(i)), protected) is None);
            }
            assert forall|i: int, j: int| 0 <= i < j < cands.len() implies !overlapping(
                #[trigger] canonical_of(cands[i]),
                #[trigger] canonical_of(cands[j]),
            ) by {
                lemma_rejection_none(cands[j], canonicals(cands.take(j)), protected);
                assert(rejection(cands[j], canonicals(cands.take(j)), protected) is None);
                lemma_overlaps_earlier(cands, j);
            }
        }
        if drop_is_safe(cands, protected) {
            assert forall|j: int| 0 <= j < cands.len() implies #[trigger] rejection(cands[j], canonicals(cands.take(j)), protected) is None by {
                lemma_rejection_none(cands[j], canonicals(cands.take(j)), protected);
                lemma_overlaps_earlier(cands, j);
                assert(candidate_acceptable(cands[j], protected));
                if overlaps_earlier(canonical_of(cands[j]), canonicals(cands.take(j))) {
                    let k = choose|k: int| 0 <= k < j && #[trigger] overlapping(canonical_of(cands[k]), canonical_of(cands[j]));
                    assert(!overlapping(canonical_of(cands[k]), canonical_of(cands[j])));
                }
            }
        }
    }
}

/// An accepted drop never names the same item twice: no two accepted items
/// have the same canonical path.
pub proof fn lemma_accepted_has_no_duplicates(cands: Seq<DropCandidate>, protected: Seq<ProtectedPath>, i: int, j: int)
    requires
        spec_validate_paths(cands, protected) is Ok,
        0 <= i < j < cands.len(),
    ensures
        canonical_of(cands[i]) != canonical_of(cands[j]),
        !spec_contains_path(canonical_of(cands[i]), canonical_of(cands[j])),
        !spec_contains_path(canonical_of(cands[j]), canonical_of(cands[i])),
{
    lemma_accepted_iff_safe(cands, protected);
    assert(!overlapping(canonical_of(cands[i]), canonical_of(cands[j])));
    if canonical_of(cands[i]) == canonical_of(cands[j]) {
        crate::path_guard::lemma_contains_path_reflexive(canonical_of(cands[i]));
    }
}

/// The text shown to the user for a refused drop.
pub open spec fn drop_error_text(e: DropError) -> Seq<char> {
    match e {
        DropError::NothingDropped => "没有收到可回收的文件或文件夹"@,
        DropError::InvalidPath(shown) => "不能回收磁盘根目录或无效路径："@ + shown@,
        DropError::Unreadable(shown, why) => shown@ + "："@ + why@,
        DropError::InsideRecycleBin => "不能回收 Windows 回收站中的项目"@,
        DropError::ProtectedData(shown) => "不能回收程序文件或设置数据："@ + shown@,
        DropError::Overlapping => "拖入的项目存在重复或父子目录重叠"@,
        DropError::UnknownVolume(shown, why) => "无法识别所在磁盘 "@ + shown@ + "："@ + why@,
        DropError::UnsupportedVolume(shown) => "此位置不支持安全移入 Windows 回收站："@ + shown@,
    }
}

/// `a` followed by `b`.
fn joined(a: &str, b: &str) -> (r: String)
    ensures
        r@ == a@ + b@,
{
    let mut r = String::from_str(a);
    r.append(b);
    r
}

impl DropError {
    /// The text shown to the user for this refusal.
    pub fn message(&self) -> (m: String)
        ensures
            m@ == drop_error_text(*self),
    {
        match self {
            DropError::NothingDropped => String::from_str("没有收到可回收的文件或文件夹"),
            DropError::InvalidPath(shown) => joined("不能回收磁盘根目录或无效路径：", shown.as_str()),
            DropError::Unreadable(shown, why) => {
                let mut m = joined(shown.as_str(), "：");
                m.append(why.as_str());
                m
            },
            DropError::InsideRecycleBin => String::from_str("不能回收 Windows 回收站中的项目"),
            DropError::ProtectedData(shown) => joined("不能回收程序文件或设置数据：", shown.as_str()),
            DropError::Overlapping => String::from_str("拖入的项目存在重复或父子目录重叠"),
            DropError::UnknownVolume(shown, why) => {
                let mut m = joined("无法识别所在磁盘 ", shown.as_str());
                m.append("：");
                m.append(why.as_str());
                m
            },
            DropError::UnsupportedVolume(shown) => joined("此位置不支持安全移入 Windows 回收站：", shown.as_str()),
        }
    }
}

/// What happened last while a drop is handled.
pub enum DropEvent {
    /// The dropped paths were judged.
    Checked(Result<(), DropError>),
    /// The preferences were read (or reading them failed with the given text).
    SettingsRead(Result<Settings, String>),
    /// The user answered the confirmation question.
    Answered(bool),
    /// The shell operation ended (with the given error text on failure).
    Recycled(Result<(), String>),
}

/// What the handler of a drop does next.
#[derive(Debug, PartialEq, Eq)]
pub enum DropAction {
    ReadSettings,
    AskConfirmation,
    Recycle,
    Finish(BinResult),
}

/// The step after `event` in handling a drop: a refused drop, unreadable
/// preferences or a failed shell operation end in a failure; with
/// "confirm before recycling" on the user is asked first, and a "no" ends
/// the drop as cancelled; only an accepted (and, if asked, confirmed) drop
/// is recycled.
pub fn next_drop_action(event: DropEvent) -> (a: DropAction)
    ensures
        match event {
            DropEvent::Checked(Err(e)) => {
                &&& a matches DropAction::Finish(r)
                &&& !r.ok
                &&& r.cancelled is None
                &&& r.error matches Some(m)
                &&& m@ == drop_error_text(e)
            },
            DropEvent::Checked(Ok(())) => a == DropAction::ReadSettings,
            DropEvent::SettingsRead(Err(e)) => a == DropAction::Finish(
                BinResult { ok: false, error: Some(e), cancelled: None },
            ),
            DropEvent::SettingsRead(Ok(s)) => a == if s.confirm_delete {
                DropAction::AskConfirmation
            } else {
                DropAction::Recycle
            },
            DropEvent::Answered(yes) => a == if yes {
                DropAction::Recycle
            } else {
                DropAction::Finish(BinResult { ok: false, error: None, cancelled: Some(true) })
            },
            DropEvent::Recycled(Ok(())) => a == DropAction::Finish(
                BinResult { ok: true, error: None, cancelled: None },
            ),
            DropEvent::Recycled(Err(e)) => a == DropAction::Finish(
                BinResult { ok: false, error: Some(e), cancelled: None },
            ),
        },
{
    match event {
        DropEvent::Checked(Err(e)) => DropAction::Finish(BinResult::failure(e.message())),
        DropEvent::Checked(Ok(())) => DropAction::ReadSettings,
        DropEvent::SettingsRead(Err(e)) => DropAction::Finish(BinResult::failure(e)),
        DropEvent::SettingsRead(Ok(s)) => if s.confirm_delete {
            DropAction::AskConfirmation
        } else {
            DropAction::Recycle
        },
        DropEvent::Answered(yes) => if yes {
            DropAction::Recycle
        } else {
            DropAction::Finish(BinResult::cancelled())
        },
        DropEvent::Recycled(Ok(())) => DropAction::Finish(BinResult::success()),
        DropEvent::Recycled(Err(e)) => DropAction::Finish(BinResult::failure(e)),
    }
}

/// Why a finished shell operation does not count as a success.
#[derive(Clone, Copy, Debug, PartialEq, Eq, Structural)]
pub enum RecycleError {
    /// The shell reported that some operations were aborted.
    Aborted,
    /// An item is still at its original place afterwards.
    NotRemoved,
}

impl RecycleError {
    /// The text shown to the user.
    pub fn message(&self) -> (m: String)
        ensures
            m@ == match *self {
                RecycleError::Aborted => "Windows 中止了部分或全部回收操作"@,
                RecycleError::NotRemoved => "至少一个项目仍在原位置，回收操作未完成"@,
            },
    {
        match self {
            RecycleError::Aborted => String::from_str("Windows 中止了部分或全部回收操作"),
            RecycleError::NotRemoved => String::from_str("至少一个项目仍在原位置，回收操作未完成"),
        }
    }
}

/// Judges a completed shell operation: it failed when the shell aborted any
/// part of it, or when any dropped item (`still_present[i]` for the i-th)
/// is still where it was.
pub fn recycle_outcome(aborted: bool, still_present: &Vec<bool>) -> (r: Result<(), RecycleError>)
    ensures
        aborted ==> r == Err::<(), RecycleError>(RecycleError::Aborted),
        !aborted && still_present@.contains(true) ==> r == Err::<(), RecycleError>(RecycleError::NotRemoved),
        !aborted && !still_present@.contains(true) ==> r == Ok::<(), RecycleError>(()),
{
    if aborted {
        return Err(RecycleError::Aborted);
    }
    let mut i: usize = 0;
    while i < still_present.len()
        invariant
            !aborted,
            i <= still_present.len(),
            forall|j: int| 0 <= j < i ==> !still_present@[j],
        decreases still_present.len() - i,
    {
        if still_present[i] {
            assert(still_present@.contains(true)) by {
                assert(still_present@[i as int] == true);
            }
            return Err(RecycleError::NotRemoved);
        }
        i = i + 1;
    }
    Ok(())
}

/// The question asked before recycling: one item is named, several are counted.
#[derive(Debug, PartialEq, Eq)]
pub enum ConfirmPrompt {
    Single(String),
    Several(usize),
}

/// Chooses the confirmation question for the dropped items' names.
pub fn confirm_prompt(names: Vec<String>) -> (p: ConfirmPrompt)
    ensures
        names.len() == 1 ==> p == ConfirmPrompt::Single(names@[0]),
        names.len() != 1 ==> p == ConfirmPrompt::Several(names.len()),
{
    let count = names.len();
    if count == 1 {
        let mut names = names;
        let name = names.swap_remove(0);
        ConfirmPrompt::Single(name)
    } else {
        ConfirmPrompt::Several(count)
    }
}

/// The application's own entries are off limits: a path that contains a
/// protected entry (file or folder), in particular one that is the same
/// path, is hit; so is a path inside a protected folder.
pub proof fn lemma_protected_entries_hit(c: Seq<char>, own: ProtectedPath, o: String)
    requires
        own.canonical == Some(o),
    ensures
        spec_contains_path(c, o@) ==> protected_hit(c, own),
        spec_normalized(c) == spec_normalized(o@) ==> protected_hit(c, own),
        own.is_dir && spec_contains_path(o@, c) ==> protected_hit(c, own),
        protected_hit(c, own) ==> spec_contains_path(c, o@) || (own.is_dir && spec_contains_path(o@, c)),
{
}

/// Dropping (as first item) a readable absolute path outside every recycle
/// bin that contains one of the application's own entries, is that entry,
/// or lies inside one of its folders, is refused as protected data.
pub proof fn lemma_dropping_own_files_is_refused(
    cands: Seq<DropCandidate>,
    protected: Seq<ProtectedPath>,
    p: String,
    k: int,
    o: String,
)
    requires
        cands.len() > 0,
        cands[0].absolute,
        cands[0].has_file_name,
        cands[0].metadata is Ok,
        cands[0].canonical == Ok::<String, String>(p),
        !spec_in_recycle_bin(p@),
        0 <= k < protected.len(),
        protected[k].canonical == Some(o),
        spec_normalized(p@) == spec_normalized(o@) || spec_contains_path(p@, o@) || (protected[k].is_dir
            && spec_contains_path(o@, p@)),
    ensures
        spec_validate_paths(cands, protected) == Err::<(), DropError>(DropError::ProtectedData(cands[0].shown)),
{
    lemma_protected_entries_hit(p@, protected[k], o);
    assert(protected_hit(p@, protected[k]));
    assert(touches_protected(p@, protected));
}

/// An accepted drop touches none of the application's own entries: no item
/// is, contains, or (for a protected folder) lies inside a protected entry.
pub proof fn lemma_accepted_spares_own_files(
    cands: Seq<DropCandidate>,
    protected: Seq<ProtectedPath>,
    i: int,
    k: int,
    o: String,
)
    requires
        spec_validate_paths(cands, protected) is Ok,
        0 <= i < cands.len(),
        0 <= k < protected.len(),
        protected[k].canonical == Some(o),
    ensures
        spec_normalized(canonical_of(cands[i])) != spec_normalized(o@),
        !spec_contains_path(canonical_of(cands[i]), o@),
        protected[k].is_dir ==> !spec_contains_path(o@, canonical_of(cands[i])),
{
    lemma_accepted_iff_safe(cands, protected);
    assert(candidate_acceptable(cands[i], protected));
    lemma_protected_entries_hit(canonical_of(cands[i]), protected[k], o);
    if protected_hit(canonical_of(cands[i]), protected[k]) {
        assert(touches_protected(canonical_of(cands[i]), protected));
    }
}

/// Every item of an accepted drop is an absolute path with a final
/// component, readable, resolvable, outside every recycle bin and on a
/// fixed local disk: one item failing any of these refuses the whole drop.
pub proof fn lemma_accepted_items_pass_every_check(cands: Seq<DropCandidate>, protected: Seq<ProtectedPath>, i: int)
    requires
        spec_validate_paths(cands, protected) is Ok,
        0 <= i < cands.len(),
    ensures
        cands.len() > 0,
        cands[i].absolute,
        cands[i].has_file_name,
        cands[i].metadata is Ok,
        cands[i].canonical is Ok,
        cands[i].fixed_volume == Ok::<bool, String>(true),
        !spec_in_recycle_bin(canonical_of(cands[i])),
{
    lemma_accepted_iff_safe(cands, protected);
    assert(candidate_acceptable(cands[i], protected));
}

/// The verdict on the first dropped item, check by check in the order they
/// are made: an invalid path, then an unreadable one, then a path in a
/// recycle bin, then a volume that is unknown or not a fixed disk.
pub proof fn lemma_first_item_verdict(cands: Seq<DropCandidate>, protected: Seq<ProtectedPath>, p: String, e: String)
    requires
        cands.len() > 0,
    ensures
        (!cands[0].absolute || !cands[0].has_file_name) ==> spec_validate_paths(cands, protected) == Err::<
            (),
            DropError,
        >(DropError::InvalidPath(cands[0].shown)),
        (cands[0].absolute && cands[0].has_file_name && cands[0].metadata == Err::<(), String>(e))
            ==> spec_validate_paths(cands, protected) == Err::<(), DropError>(
            DropError::Unreadable(cands[0].shown, e),
        ),
        (cands[0].absolute && cands[0].has_file_name && cands[0].metadata is Ok && cands[0].canonical == Err::<
            String,
            String,
        >(e)) ==> spec_validate_paths(cands, protected) == Err::<(), DropError>(
            DropError::Unreadable(cands[0].shown, e),
        ),
        (cands[0].absolute && cands[0].has_file_name && cands[0].metadata is Ok && cands[0].canonical == Ok::<
            String,
            String,
        >(p) && spec_in_recycle_bin(p@)) ==> spec_validate_paths(cands, protected) == Err::<(), DropError>(
            DropError::InsideRecycleBin,
        ),
        (cands[0].absolute && cands[0].has_file_name && cands[0].metadata is Ok && cands[0].canonical == Ok::<
            String,
            String,
        >(p) && !spec_in_recycle_bin(p@) && !touches_protected(p@, protected) && cands[0].fixed_volume == Err::<
            bool,
            String,
        >(e)) ==> spec_validate_paths(cands, protected) == Err::<(), DropError>(
            DropError::UnknownVolume(cands[0].shown, e),
        ),
        (cands[0].absolute && cands[0].has_file_name && cands[0].metadata is Ok && cands[0].canonical == Ok::<
            String,
            String,
        >(p) && !spec_in_recycle_bin(p@) && !touches_protected(p@, protected) && cands[0].fixed_volume == Ok::<
            bool,
            String,
        >(false)) ==> spec_validate_paths(cands, protected) == Err::<(), DropError>(
            DropError::UnsupportedVolume(cands[0].shown),
        ),
        spec_validate_paths(Seq::<DropCandidate>::empty(), protected) == Err::<(), DropError>(
            DropError::NothingDropped,
        ),
{
    assert(canonicals(cands.take(0)) =~= Seq::<Seq<char>>::empty());
}

} // verus!
