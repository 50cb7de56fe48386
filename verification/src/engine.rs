use vstd::prelude::*;
use vstd::string::StringExecFns;
use crate::api::{
    CompleteMultipartUploadRequest, CompleteRequest, GetUploadUrlsParams, GetUploadUrlsResponse,
    MultipartUploadResponse, SinglePartUploadResponse, UploadRequest, UploadUrlPart, UploadedPart,
};
use crate::api::BuildDetails;
use crate::batch::{check_batch_cover, lemma_cover_has, spec_batch_cover};
use vstd::arithmetic::mul::lemma_mul_inequality;
use crate::error::Error;
use crate::plan::{
    lemma_part_count, lemma_progress_monotone, part_range, spec_offset, spec_part_count,
    spec_progress,
};

verus! {

/// The largest file that still goes through the single-part flow when
/// multipart is not forced.
pub const MAX_SINGLE_PART_SIZE: u64 = 3 * 1024 * 1024 * 1024;

/// Request-scoped options of one upload invocation.
#[derive(Debug)]
pub struct UploadOptions {
    pub name: String,
    pub platform: String,
    pub description: Option<String>,
    pub upload_timeout: Option<u32>,
    pub auto_delete: bool,
    pub deletion_policy: Option<String>,
    pub force_multipart: bool,
    pub parallel: usize,
    pub details: Option<BuildDetails>,
    pub tags: Option<Vec<String>>,
}

/// Where the upload flow stands; each awaiting phase expects the outcome
/// of exactly one remote call.
#[derive(Debug, Clone, Copy, PartialEq, Eq, Structural)]
pub enum UploadPhase {
    Created,
    SingleRequested,
    SingleTransferring,
    SingleCompleting,
    MultiInitiating,
    UrlsRequested,
    BatchTransferring,
    MultiCompleting,
    Aborting,
    Done,
    Failed,
}

/// One part transfer the embedding program must perform: send the file
/// bytes `[start, end)` to `url` and report the returned integrity token.
#[derive(Debug, Clone)]
pub struct PartTransfer {
    pub part_number: u64,
    pub url: String,
    pub start: u64,
    pub end: u64,
}

/// What the engine asks the embedding program to do next.
#[derive(Debug)]
pub enum UploadAction {
    RequestUploadUrl { request: UploadRequest },
    InitiateMultipart { request: UploadRequest },
    RequestPartUrls { params: GetUploadUrlsParams },
    TransferParts { transfers: Vec<PartTransfer> },
    TransferWhole { url: String },
    CompleteUpload { request: CompleteRequest },
    CompleteMultipart { request: CompleteMultipartUploadRequest },
    AbortUpload { build_id: String, upload_id: Option<String>, object_key: Option<String> },
    Conclude { outcome: Result<String, Error> },
}

/// The backend's multipart plan is consistent with the file: at least one
/// part, and exactly the ceiling count for this part size.
pub open spec fn spec_plan_valid(file_size: u64, part_size: usize, total_parts: usize) -> bool {
    &&& file_size >= 1
    &&& part_size >= 1
    &&& total_parts as int == spec_part_count(file_size as int, part_size as int)
}

fn clone_opt_string(o: &Option<String>) -> (r: Option<String>)
    ensures
        r.deep_view() == o.deep_view(),
{
    match o {
        Some(s) => Some(s.clone()),
        None => None,
    }
}

/// The request body carries the options and file facts of the engine,
/// with the given multipart flag.
pub open spec fn spec_request_built(req: &UploadRequest, pre: &UploadEngine, multipart: bool) -> bool {
    &&& req.name@ == pre.options.name@
    &&& req.description.deep_view() == pre.options.description.deep_view()
    &&& req.file_name@ == pre.file_name@
    &&& req.file_size == pre.file_size
    &&& req.platform@ == pre.options.platform@
    &&& req.multipart == multipart
    &&& req.auto_delete == Some(pre.options.auto_delete)
    &&& req.deletion_policy.deep_view() == pre.options.deletion_policy.deep_view()
    &&& req.upload_timeout == pre.options.upload_timeout
    &&& req.details == pre.options.details
    &&& req.tags == pre.options.tags
}

/// The action aborts exactly the session of `pre`.
pub open spec fn spec_abort_action(a: &UploadAction, pre: &UploadEngine) -> bool {
    &&& a matches UploadAction::AbortUpload { build_id, upload_id, object_key }
        && build_id@ == pre.build_id.unwrap()@ && upload_id.deep_view()
        == pre.upload_id.deep_view() && (object_key matches Some(k) && k@
        == pre.object_key.unwrap()@)
}

/// The orchestrator of one file's upload, driven as a state machine:
/// every remote call is returned as an action, and its outcome comes back
/// through the matching `on_*` method.
#[derive(Debug)]
pub struct UploadEngine {
    pub options: UploadOptions,
    pub file_name: String,
    pub file_size: u64,
    pub phase: UploadPhase,
    pub build_id: Option<String>,
    pub upload_id: Option<String>,
    pub object_key: Option<String>,
    pub part_size: usize,
    pub total_parts: usize,
    pub parts_done: usize,
    pub batch_len: usize,
    pub etags: Vec<Option<String>>,
    pub bytes_done: u64,
    pub failure: Option<Error>,
}

impl UploadEngine {
    /// The file goes multipart: forced, or larger than the single-part
    /// ceiling.
    pub open spec fn spec_is_multipart_route(&self) -> bool {
        self.options.force_multipart || self.file_size > MAX_SINGLE_PART_SIZE
    }

    /// The session identifiers every post-initiate call needs are known.
    pub open spec fn spec_session_known(&self) -> bool {
        self.build_id is Some && self.object_key is Some
    }

    /// The stored multipart plan is consistent with the file.
    pub open spec fn spec_plan_ok(&self) -> bool {
        spec_plan_valid(self.file_size, self.part_size, self.total_parts)
    }

    /// The bytes the completed parts amount to.
    pub open spec fn spec_progress_now(&self) -> int {
        spec_progress(
            self.parts_done as int,
            self.part_size as int,
            self.total_parts as int,
            self.file_size as int,
        )
    }

    /// The multipart session invariant: the session and plan are fixed,
    /// an integrity token is recorded for exactly the completed parts
    /// (batches run in ascending order, so those are a prefix), and the
    /// byte counter matches them.
    pub open spec fn spec_multi_wf(&self) -> bool {
        &&& self.spec_session_known()
        &&& self.upload_id is Some
        &&& self.spec_plan_ok()
        &&& self.etags@.len() == self.total_parts
        &&& self.parts_done <= self.total_parts
        &&& forall|i: int|
            0 <= i < self.etags@.len() ==> ((#[trigger] self.etags@[i]) is Some <==> i
                < self.parts_done)
        &&& self.bytes_done as int == self.spec_progress_now()
    }

    /// The in-flight batch covers the next parts, never more than the
    /// concurrency limit at once.
    pub open spec fn spec_batch_wf(&self) -> bool {
        &&& self.parts_done < self.total_parts
        &&& self.batch_len as int == vstd::math::min(
            self.options.parallel as int,
            self.total_parts - self.parts_done,
        )
        &&& 1 <= self.batch_len
        &&& self.batch_len <= self.options.parallel
    }

    /// Well-formedness of the engine in its current phase.
    pub open spec fn wf(&self) -> bool {
        &&& self.options.parallel >= 1
        &&& match self.phase {
            UploadPhase::Created => self.bytes_done == 0 && self.build_id is None
                && self.upload_id is None && self.object_key is None,
            UploadPhase::SingleRequested => !self.spec_is_multipart_route() && self.bytes_done
                == 0 && self.upload_id is None,
            UploadPhase::SingleTransferring => !self.spec_is_multipart_route()
                && self.spec_session_known() && self.upload_id is None && self.bytes_done == 0,
            UploadPhase::SingleCompleting => !self.spec_is_multipart_route()
                && self.spec_session_known() && self.upload_id is None && self.bytes_done
                == self.file_size,
            UploadPhase::MultiInitiating => self.spec_is_multipart_route() && self.bytes_done
                == 0,
            UploadPhase::UrlsRequested => self.spec_is_multipart_route() && self.spec_multi_wf()
                && self.spec_batch_wf(),
            UploadPhase::BatchTransferring => self.spec_is_multipart_route()
                && self.spec_multi_wf() && self.spec_batch_wf(),
            UploadPhase::MultiCompleting => self.spec_is_multipart_route()
                && self.spec_multi_wf() && self.parts_done == self.total_parts
                && self.bytes_done == self.file_size,
            UploadPhase::Aborting => self.failure is Some && self.spec_session_known(),
            UploadPhase::Done => self.spec_session_known() && self.bytes_done == self.file_size,
            UploadPhase::Failed => true,
        }
    }

    /// The file and concurrency facts the whole flow is judged against.
    pub open spec fn spec_same_file(&self, other: &Self) -> bool {
        &&& self.file_size == other.file_size
        &&& self.file_name == other.file_name
        &&& self.options.parallel == other.options.parallel
        &&& self.options.force_multipart == other.options.force_multipart
    }

    /// The session identifiers and plan are unchanged.
    pub open spec fn spec_same_session(&self, other: &Self) -> bool {
        &&& self.build_id == other.build_id
        &&& self.upload_id == other.upload_id
        &&& self.object_key == other.object_key
        &&& self.part_size == other.part_size
        &&& self.total_parts == other.total_parts
    }

    /// A fresh engine for one file, before any remote call.
    pub fn new(options: UploadOptions, file_name: String, file_size: u64) -> (e: Self)
        requires
            options.parallel >= 1,
        ensures
            e.wf(),
            e.phase == UploadPhase::Created,
            e.options == options,
            e.file_name == file_name,
            e.file_size == file_size,
            e.bytes_done == 0,
            e.parts_done == 0,
            e.build_id is None,
            e.upload_id is None,
            e.object_key is None,
            e.failure is None,
    {
        UploadEngine {
            options,
            file_name,
            file_size,
            phase: UploadPhase::Created,
            build_id: None,
            upload_id: None,
            object_key: None,
            part_size: 0,
            total_parts: 0,
            parts_done: 0,
            batch_len: 0,
            etags: Vec::new(),
            bytes_done: 0,
            failure: None,
        }
    }

    /// The bytes recorded as transferred so far.
    pub fn bytes_transferred(&self) -> (r: u64)
        ensures
            r == self.bytes_done,
    {
        self.bytes_done
    }

    /// The phase the flow stands in.
    pub fn current_phase(&self) -> (r: UploadPhase)
        ensures
            r == self.phase,
    {
        self.phase
    }

    /// No batch is ever larger than the concurrency limit: whenever part
    /// URLs are out or transfers are in flight, at most `parallel` parts
    /// are involved.
    pub proof fn lemma_concurrency_bound(&self)
        requires
            self.wf(),
            self.phase == UploadPhase::UrlsRequested || self.phase
                == UploadPhase::BatchTransferring,
        ensures
            self.batch_len <= self.options.parallel,
    {
    }

    /// At a successful conclusion the recorded progress equals the file
    /// size, in both flows.
    pub proof fn lemma_progress_complete(&self)
        requires
            self.wf(),
            self.phase == UploadPhase::Done,
        ensures
            self.bytes_done == self.file_size,
    {
    }

    fn abort_action(&self) -> (a: UploadAction)
        requires
            self.spec_session_known(),
        ensures
            spec_abort_action(&a, self),
    {
        let b: String = match &self.build_id {
            Some(x) => x.clone(),
            None => {
                proof {
                    assert(false);
                }
                String::new()
            },
        };
        let u = clone_opt_string(&self.upload_id);
        let k: String = match &self.object_key {
            Some(x) => x.clone(),
            None => {
                proof {
                    assert(false);
                }
                String::new()
            },
        };
        UploadAction::AbortUpload { build_id: b, upload_id: u, object_key: Some(k) }
    }

    fn cloned_build_id(&self) -> (r: String)
        requires
            self.build_id is Some,
        ensures
            r@ == self.build_id.unwrap()@,
    {
        match &self.build_id {
            Some(x) => x.clone(),
            None => {
                proof {
                    assert(false);
                }
                String::new()
            },
        }
    }

    /// Sizes the file and starts the chosen flow: the multipart initiate
    /// call when forced or when the file exceeds the single-part ceiling,
    /// the single-part URL request otherwise.
    pub fn start(&mut self) -> (a: UploadAction)
        requires
            old(self).wf(),
            old(self).phase == UploadPhase::Created,
        ensures
            final(self).wf(),
            final(self).spec_same_file(&*old(self)),
            final(self).bytes_done == 0,
            if old(self).spec_is_multipart_route() {
                &&& final(self).phase == UploadPhase::MultiInitiating
                &&& a matches UploadAction::InitiateMultipart { request } && spec_request_built(
                    &request,
                    &*old(self),
                    true,
                )
            } else {
                &&& final(self).phase == UploadPhase::SingleRequested
                &&& a matches UploadAction::RequestUploadUrl { request } && spec_request_built(
                    &request,
                    &*old(self),
                    false,
                )
            },
    {
        let multipart = self.options.force_multipart || self.file_size > MAX_SINGLE_PART_SIZE;
        let request = UploadRequest {
            name: self.options.name.clone(),
            description: clone_opt_string(&self.options.description),
            file_name: self.file_name.clone(),
            file_size: self.file_size,
            platform: self.options.platform.clone(),
            multipart,
            auto_delete: Some(self.options.auto_delete),
            deletion_policy: clone_opt_string(&self.options.deletion_policy),
            upload_timeout: self.options.upload_timeout,
            details: self.options.details.take(),
            tags: self.options.tags.take(),
        };
        if multipart {
            self.phase = UploadPhase::MultiInitiating;
            UploadAction::InitiateMultipart { request }
        } else {
            self.phase = UploadPhase::SingleRequested;
            UploadAction::RequestUploadUrl { request }
        }
    }

    /// The single-part URL request answered: remember the session and
    /// stream the whole file to the returned URL.
    pub fn on_single_initiated(&mut self, response: SinglePartUploadResponse) -> (a: UploadAction)
        requires
            old(self).wf(),
            old(self).phase == UploadPhase::SingleRequested,
        ensures
            final(self).wf(),
            final(self).spec_same_file(&*old(self)),
            final(self).phase == UploadPhase::SingleTransferring,
            final(self).build_id == Some(response.build_id),
            final(self).object_key == Some(response.object_key),
            final(self).upload_id is None,
            final(self).bytes_done == 0,
            a matches UploadAction::TransferWhole { url } && url == response.upload_url,
    {
        let SinglePartUploadResponse { build_id, upload_url, object_key } = response;
        self.build_id = Some(build_id);
        self.object_key = Some(object_key);
        self.phase = UploadPhase::SingleTransferring;
        UploadAction::TransferWhole { url: upload_url }
    }

    /// The whole file streamed successfully: progress reaches the file
    /// size and completion is requested.
    pub fn on_whole_transferred(&mut self) -> (a: UploadAction)
        requires
            old(self).wf(),
            old(self).phase == UploadPhase::SingleTransferring,
        ensures
            final(self).wf(),
            final(self).spec_same_file(&*old(self)),
            final(self).phase == UploadPhase::SingleCompleting,
            final(self).bytes_done == final(self).file_size,
            final(self).bytes_done >= old(self).bytes_done,
            final(self).build_id == old(self).build_id,
            a matches UploadAction::CompleteUpload { request } && request.build_id@ == old(
                self,
            ).build_id.unwrap()@,
    {
        self.bytes_done = self.file_size;
        self.phase = UploadPhase::SingleCompleting;
        let b = self.cloned_build_id();
        UploadAction::CompleteUpload { request: CompleteRequest { build_id: b } }
    }

    /// The completion call acknowledged: the flow concludes successfully
    /// with the session's build id, and only then.
    pub fn on_complete_acknowledged(&mut self) -> (a: UploadAction)
        requires
            old(self).wf(),
            old(self).phase == UploadPhase::SingleCompleting || old(self).phase
                == UploadPhase::MultiCompleting,
        ensures
            final(self).wf(),
            final(self).spec_same_file(&*old(self)),
            final(self).phase == UploadPhase::Done,
            final(self).bytes_done == final(self).file_size,
            final(self).bytes_done >= old(self).bytes_done,
            a matches UploadAction::Conclude { outcome } && (outcome matches Ok(b) && b@ == old(
                self,
            ).build_id.unwrap()@),
    {
        self.phase = UploadPhase::Done;
        let b = self.cloned_build_id();
        UploadAction::Conclude { outcome: Ok(b) }
    }

    /// The initiate call answered: remember the session and plan, and
    /// request upload URLs for the first batch. A response whose part
    /// plan is inconsistent with the file size cannot drive the protocol
    /// to a consistent completion, so it is treated like any other
    /// malformed response: the fresh session is aborted best-effort and
    /// the flow fails.
    pub fn on_multi_initiated(&mut self, response: MultipartUploadResponse) -> (a: UploadAction)
        requires
            old(self).wf(),
            old(self).phase == UploadPhase::MultiInitiating,
        ensures
            final(self).wf(),
            final(self).spec_same_file(&*old(self)),
            final(self).bytes_done == 0,
            final(self).build_id == Some(response.build_id),
            final(self).upload_id == Some(response.upload_id),
            final(self).object_key == Some(response.object_key),
            if spec_plan_valid(old(self).file_size, response.part_size, response.total_parts) {
                &&& final(self).phase == UploadPhase::UrlsRequested
                &&& final(self).part_size == response.part_size
                &&& final(self).total_parts == response.total_parts
                &&& final(self).parts_done == 0
                &&& final(self).batch_len as int == vstd::math::min(
                    old(self).options.parallel as int,
                    response.total_parts as int,
                )
                &&& a matches UploadAction::RequestPartUrls { params } && params.upload_id@
                    == response.upload_id@ && params.object_key@ == response.object_key@
                    && params.part_numbers@.len() == final(self).batch_len && (forall|i: int|
                    0 <= i < params.part_numbers@.len() ==> #[trigger] params.part_numbers@[i]
                        == 1 + i)
            } else {
                &&& final(self).phase == UploadPhase::Aborting
                &&& final(self).failure matches Some(e) && e is ApiError && e.spec_text()
                    == "Multipart response is inconsistent with the file size"@
                &&& spec_abort_action(&a, &*final(self))
            },
    {
        let MultipartUploadResponse { build_id, upload_id, object_key, total_parts, part_size } =
            response;
        self.build_id = Some(build_id);
        self.upload_id = Some(upload_id);
        self.object_key = Some(object_key);
        self.part_size = part_size;
        self.total_parts = total_parts;
        let valid = self.file_size >= 1 && part_size >= 1 && {
            let expected: u64 = (self.file_size - 1) / (part_size as u64) + 1;
            total_parts as u64 == expected
        };
        proof {
            if self.file_size >= 1 && part_size >= 1 {
                lemma_part_count(self.file_size as int, part_size as int);
            }
        }
        if valid {
            proof {
                lemma_part_count(self.file_size as int, part_size as int);
            }
            let batch = if self.options.parallel < total_parts {
                self.options.parallel
            } else {
                total_parts
            };
            self.parts_done = 0;
            self.batch_len = batch;
            self.bytes_done = 0;
            let mut etags: Vec<Option<String>> = Vec::new();
            let mut z: usize = 0;
            while z < total_parts
                invariant
                    z <= total_parts,
                    etags@.len() == z,
                    forall|i: int| 0 <= i < z ==> (#[trigger] etags@[i]) is None,
                decreases total_parts - z,
            {
                etags.push(None);
                z = z + 1;
            }
            self.etags = etags;
            self.phase = UploadPhase::UrlsRequested;
            let mut nums: Vec<u64> = Vec::new();
            let mut i: usize = 0;
            while i < batch
                invariant
                    i <= batch,
                    batch <= total_parts,
                    total_parts as int <= u64::MAX,
                    nums@.len() == i,
                    forall|k: int| 0 <= k < i ==> #[trigger] nums@[k] == 1 + k,
                decreases batch - i,
            {
                nums.push((i as u64) + 1);
                i = i + 1;
            }
            let uid: String = match &self.upload_id {
                Some(x) => x.clone(),
                None => {
                    proof {
                        assert(false);
                    }
                    String::new()
                },
            };
            let key: String = match &self.object_key {
                Some(x) => x.clone(),
                None => {
                    proof {
                        assert(false);
                    }
                    String::new()
                },
            };
            UploadAction::RequestPartUrls {
                params: GetUploadUrlsParams { upload_id: uid, object_key: key, part_numbers: nums },
            }
        } else {
            self.failure = Some(
                Error::ApiError("Multipart response is inconsistent with the file size".to_owned()),
            );
            self.phase = UploadPhase::Aborting;
            self.abort_action()
        }
    }

    /// The part-URL call answered. The URLs must name exactly the parts
    /// of the in-flight batch, each once, in any order; each transfer then
    /// carries that part's byte range, and at most `parallel` transfers
    /// are handed out at once. A response naming other parts is rejected:
    /// the session is aborted best-effort and the flow fails.
    pub fn on_part_urls(&mut self, response: GetUploadUrlsResponse) -> (a: UploadAction)
        requires
            old(self).wf(),
            old(self).phase == UploadPhase::UrlsRequested,
        ensures
            final(self).wf(),
            final(self).spec_same_file(&*old(self)),
            final(self).spec_same_session(&*old(self)),
            final(self).bytes_done == old(self).bytes_done,
            final(self).parts_done == old(self).parts_done,
            final(self).batch_len == old(self).batch_len,
            final(self).etags@ == old(self).etags@,
            ({
                let nums = response.upload_urls@.map_values(|u: UploadUrlPart| u.part_number);
                let first = old(self).parts_done + 1;
                let count = old(self).batch_len;
                if spec_batch_cover(nums, first as int, count as int) {
                    &&& final(self).phase == UploadPhase::BatchTransferring
                    &&& a matches UploadAction::TransferParts { transfers } && transfers@.len()
                        == count && count <= old(self).options.parallel && (forall|i: int|
                        0 <= i < transfers@.len() ==> (#[trigger] transfers@[i]).part_number
                            == nums[i]) && (forall|i: int|
                        0 <= i < transfers@.len() ==> (#[trigger] transfers@[i]).url@
                            == response.upload_urls@[i].url@) && (forall|i: int|
                        0 <= i < transfers@.len() ==> (#[trigger] transfers@[i]).start == (
                        nums[i] - 1) * (old(self).part_size as int)) && (forall|i: int|
                        0 <= i < transfers@.len() ==> (#[trigger] transfers@[i]).end
                            == spec_offset(
                            nums[i] as int,
                            old(self).part_size as int,
                            old(self).file_size as int,
                        ))
                } else {
                    &&& final(self).phase == UploadPhase::Aborting
                    &&& final(self).failure matches Some(e) && e is ApiError && e.spec_text()
                        == "Upload URLs do not match the requested part numbers"@
                    &&& spec_abort_action(&a, &*old(self))
                }
            }),
    {
        let first_u64: u64 = (self.parts_done as u64) + 1;
        let count = self.batch_len;
        let n = response.upload_urls.len();
        let mut nums: Vec<u64> = Vec::new();
        let mut i: usize = 0;
        while i < n
            invariant
                i <= n,
                n == response.upload_urls@.len(),
                nums@.len() == i,
                forall|k: int|
                    0 <= k < i ==> #[trigger] nums@[k] == response.upload_urls@[k].part_number,
            decreases n - i,
        {
            nums.push(response.upload_urls[i].part_number);
            i = i + 1;
        }
        proof {
            assert(nums@ =~= response.upload_urls@.map_values(|u: UploadUrlPart| u.part_number));
        }
        let ok = check_batch_cover(&nums, first_u64, count);
        if ok {
            proof {
                lemma_part_count(self.file_size as int, self.part_size as int);
            }
            let mut transfers: Vec<PartTransfer> = Vec::new();
            let mut k: usize = 0;
            while k < n
                invariant
                    k <= n,
                    n == response.upload_urls@.len(),
                    nums@.len() == n,
                    forall|m: int|
                        0 <= m < n ==> #[trigger] nums@[m] == response.upload_urls@[m].part_number,
                    spec_batch_cover(nums@, self.parts_done + 1, self.batch_len as int),
                    self.parts_done + self.batch_len <= self.total_parts,
                    spec_plan_valid(self.file_size, self.part_size, self.total_parts),
                    transfers@.len() == k,
                    forall|m: int|
                        0 <= m < k ==> (#[trigger] transfers@[m]).part_number == nums@[m],
                    forall|m: int|
                        0 <= m < k ==> (#[trigger] transfers@[m]).url@
                            == response.upload_urls@[m].url@,
                    forall|m: int|
                        0 <= m < k ==> (#[trigger] transfers@[m]).start == (nums@[m] - 1) * (
                        self.part_size as int),
                    forall|m: int|
                        0 <= m < k ==> (#[trigger] transfers@[m]).end == spec_offset(
                            nums@[m] as int,
                            self.part_size as int,
                            self.file_size as int,
                        ),
                decreases n - k,
            {
                let pn = response.upload_urls[k].part_number;
                let url = response.upload_urls[k].url.clone();
                proof {
                    assert(pn == nums@[k as int]);
                    assert(self.parts_done + 1 <= nums@[k as int] < self.parts_done + 1
                        + self.batch_len);
                }
                let (s, e) = part_range(
                    pn,
                    self.part_size as u64,
                    self.file_size,
                    self.total_parts as u64,
                );
                transfers.push(PartTransfer { part_number: pn, url, start: s, end: e });
                k = k + 1;
            }
            self.phase = UploadPhase::BatchTransferring;
            UploadAction::TransferParts { transfers }
        } else {
            self.failure = Some(
                Error::ApiError("Upload URLs do not match the requested part numbers".to_owned()),
            );
            self.phase = UploadPhase::Aborting;
            self.abort_action()
        }
    }

    /// A batch of transfers finished. The reported parts must be exactly
    /// the batch's part numbers, each exactly once, in any order (the
    /// transfers within a batch complete in no fixed order); their
    /// integrity tokens are recorded, progress advances by the batch's
    /// bytes, and the next batch's URLs are requested — or, after the
    /// last batch, completion is submitted with every part listed once in
    /// ascending order. A report naming other parts is rejected: the
    /// session is aborted best-effort and the flow fails.
    pub fn on_parts_transferred(&mut self, parts: Vec<UploadedPart>) -> (a: UploadAction)
        requires
            old(self).wf(),
            old(self).phase == UploadPhase::BatchTransferring,
        ensures
            final(self).wf(),
            final(self).spec_same_file(&*old(self)),
            final(self).spec_same_session(&*old(self)),
            final(self).bytes_done >= old(self).bytes_done,
            ({
                let nums = parts@.map_values(|p: UploadedPart| p.part_number);
                let first = old(self).parts_done + 1;
                let count = old(self).batch_len;
                if spec_batch_cover(nums, first as int, count as int) {
                    &&& final(self).parts_done == old(self).parts_done + count
                    &&& final(self).bytes_done as int == spec_progress(
                        final(self).parts_done as int,
                        old(self).part_size as int,
                        old(self).total_parts as int,
                        old(self).file_size as int,
                    )
                    &&& (forall|i: int|
                        0 <= i < old(self).parts_done ==> final(self).etags@[i] == old(
                            self,
                        ).etags@[i])
                    &&& (forall|i: int|
                        0 <= i < parts@.len() ==> final(self).etags@[(#[trigger] parts@[i]).part_number
                            - 1] == Some(parts@[i].etag))
                    &&& if old(self).parts_done + count == old(self).total_parts {
                        &&& final(self).phase == UploadPhase::MultiCompleting
                        &&& a matches UploadAction::CompleteMultipart { request }
                            && request.build_id@ == old(self).build_id.unwrap()@
                            && request.upload_id@ == old(self).upload_id.unwrap()@
                            && request.object_key@ == old(self).object_key.unwrap()@
                            && request.parts@.len() == old(self).total_parts && (forall|i: int|
                            0 <= i < request.parts@.len() ==> (#[trigger] request.parts@[i]).part_number
                                == i + 1) && (forall|i: int|
                            0 <= i < request.parts@.len() ==> (#[trigger] request.parts@[i]).etag@
                                == final(self).etags@[i].unwrap()@)
                    } else {
                        &&& final(self).phase == UploadPhase::UrlsRequested
                        &&& final(self).batch_len as int == vstd::math::min(
                            old(self).options.parallel as int,
                            old(self).total_parts - final(self).parts_done,
                        )
                        &&& a matches UploadAction::RequestPartUrls { params }
                            && params.upload_id@ == old(self).upload_id.unwrap()@
                            && params.object_key@ == old(self).object_key.unwrap()@
                            && params.part_numbers@.len() == final(self).batch_len && (forall|
                            i: int,
                        |
                            0 <= i < params.part_numbers@.len()
                                ==> #[trigger] params.part_numbers@[i] == final(self).parts_done
                                + 1 + i)
                    }
                } else {
                    &&& final(self).phase == UploadPhase::Aborting
                    &&& final(self).parts_done == old(self).parts_done
                    &&& final(self).failure matches Some(e) && e is ApiError && e.spec_text()
                        == "Transferred parts do not match the requested part numbers"@
                    &&& spec_abort_action(&a, &*old(self))
                }
            }),
    {
        let ghost orig = parts@;
        let ghost done0 = self.parts_done as int;
        let ghost pre_etags = self.etags@;
        let first_u64: u64 = (self.parts_done as u64) + 1;
        let count = self.batch_len;
        let n = parts.len();
        let mut nums: Vec<u64> = Vec::new();
        let mut i0: usize = 0;
        while i0 < n
            invariant
                i0 <= n,
                n == parts@.len(),
                nums@.len() == i0,
                forall|k: int| 0 <= k < i0 ==> #[trigger] nums@[k] == parts@[k].part_number,
            decreases n - i0,
        {
            nums.push(parts[i0].part_number);
            i0 = i0 + 1;
        }
        proof {
            assert(nums@ =~= parts@.map_values(|p: UploadedPart| p.part_number));
        }
        let ok = check_batch_cover(&nums, first_u64, count);
        if !ok {
            self.failure = Some(
                Error::ApiError(
                    "Transferred parts do not match the requested part numbers".to_owned(),
                ),
            );
            self.phase = UploadPhase::Aborting;
            return self.abort_action();
        }
        proof {
            assert(orig =~= orig.subrange(0, orig.len() as int));
        }
        let mut rest = parts;
        while rest.len() > 0
            invariant
                self.options == old(self).options,
                self.file_name == old(self).file_name,
                self.file_size == old(self).file_size,
                self.build_id == old(self).build_id,
                self.upload_id == old(self).upload_id,
                self.object_key == old(self).object_key,
                self.part_size == old(self).part_size,
                self.total_parts == old(self).total_parts,
                self.parts_done == old(self).parts_done,
                self.batch_len == old(self).batch_len,
                self.bytes_done == old(self).bytes_done,
                self.failure == old(self).failure,
                self.phase == old(self).phase,
                done0 == self.parts_done as int,
                count == self.batch_len,
                done0 + count <= self.total_parts,
                orig.len() == count,
                nums@.len() == count,
                forall|k: int| 0 <= k < count ==> #[trigger] nums@[k] == orig[k].part_number,
                spec_batch_cover(nums@, done0 + 1, count as int),
                rest@ == orig.subrange(0, rest@.len() as int),
                rest@.len() <= count,
                self.etags@.len() == self.total_parts,
                forall|k: int|
                    rest@.len() <= k < count ==> self.etags@[(#[trigger] orig[k]).part_number
                        - 1] == Some(orig[k].etag),
                forall|i: int|
                    0 <= i < self.etags@.len() && (i < done0 || i >= done0 + count)
                        ==> #[trigger] self.etags@[i] == pre_etags[i],
                pre_etags.len() == self.etags@.len(),
            decreases rest@.len(),
        {
            let ghost mm = rest@.len() - 1;
            let p = match rest.pop() {
                Some(p) => p,
                None => {
                    proof {
                        assert(false);
                    }
                    UploadedPart { part_number: 1, etag: String::new() }
                },
            };
            proof {
                assert(rest@ =~= orig.subrange(0, mm));
                assert(p == orig[mm]);
                assert(nums@[mm] == orig[mm].part_number);
                assert(done0 + 1 <= nums@[mm] < done0 + 1 + count);
            }
            let idx = (p.part_number as usize) - 1;
            let ghost before = self.etags@;
            self.etags.set(idx, Some(p.etag));
            proof {
                assert forall|k: int|
                    rest@.len() <= k < count implies self.etags@[(#[trigger] orig[k]).part_number
                        - 1] == Some(orig[k].etag) by {
                    if k == mm {
                        assert(self.etags@[idx as int] == Some(orig[mm].etag));
                    } else {
                        assert(nums@[k] != nums@[mm]);
                        assert(orig[k].part_number - 1 != idx as int);
                        assert(self.etags@[orig[k].part_number - 1] == before[orig[k].part_number
                            - 1]);
                    }
                }
            }
        }
        let new_done = self.parts_done + count;
        proof {
            lemma_part_count(self.file_size as int, self.part_size as int);
        }
        let new_bytes: u64 = if new_done == self.total_parts {
            self.file_size
        } else {
            proof {
                lemma_mul_inequality(
                    new_done as int,
                    self.total_parts - 1,
                    self.part_size as int,
                );
            }
            (new_done as u64) * (self.part_size as u64)
        };
        proof {
            lemma_progress_monotone(
                done0,
                new_done as int,
                self.part_size as int,
                self.total_parts as int,
                self.file_size as int,
            );
        }
        self.parts_done = new_done;
        self.bytes_done = new_bytes;
        proof {
            assert forall|i: int|
                0 <= i < self.etags@.len() implies ((#[trigger] self.etags@[i]) is Some <==> i
                < self.parts_done as int) by {
                if done0 <= i < done0 + count {
                    lemma_cover_has(nums@, done0 + 1, count as int, i + 1);
                    let k = choose|k: int| 0 <= k < nums@.len() && #[trigger] nums@[k] == i + 1;
                    assert(orig[k].part_number == i + 1);
                    assert(self.etags@[(orig[k]).part_number - 1] == Some(orig[k].etag));
                } else {
                    assert(self.etags@[i] == pre_etags[i]);
                }
            }
        }
        if new_done == self.total_parts {
            let ghost total = self.total_parts as int;
            let mut plist: Vec<UploadedPart> = Vec::new();
            let mut i2: usize = 0;
            while i2 < self.total_parts
                invariant
                    i2 <= self.total_parts,
                    self.etags@.len() == self.total_parts,
                    self.total_parts as int <= u64::MAX,
                    forall|i: int|
                        0 <= i < self.etags@.len() ==> (#[trigger] self.etags@[i]) is Some,
                    plist@.len() == i2,
                    forall|i: int|
                        0 <= i < i2 ==> (#[trigger] plist@[i]).part_number == i + 1,
                    forall|i: int|
                        0 <= i < i2 ==> (#[trigger] plist@[i]).etag@ == self.etags@[i].unwrap()@,
                decreases self.total_parts - i2,
            {
                let e: String = match &self.etags[i2] {
                    Some(e) => e.clone(),
                    None => {
                        proof {
                            assert(false);
                        }
                        String::new()
                    },
                };
                plist.push(UploadedPart { part_number: (i2 as u64) + 1, etag: e });
                i2 = i2 + 1;
            }
            let bid = self.cloned_build_id();
            let uid: String = match &self.upload_id {
                Some(x) => x.clone(),
                None => {
                    proof {
                        assert(false);
                    }
                    String::new()
                },
            };
            let key: String = match &self.object_key {
                Some(x) => x.clone(),
                None => {
                    proof {
                        assert(false);
                    }
                    String::new()
                },
            };
            self.phase = UploadPhase::MultiCompleting;
            UploadAction::CompleteMultipart {
                request: CompleteMultipartUploadRequest {
                    build_id: bid,
                    upload_id: uid,
                    object_key: key,
                    parts: plist,
                },
            }
        } else {
            let remaining = self.total_parts - new_done;
            let batch = if self.options.parallel < remaining {
                self.options.parallel
            } else {
                remaining
            };
            self.batch_len = batch;
            let mut nums2: Vec<u64> = Vec::new();
            let mut i3: usize = 0;
            while i3 < batch
                invariant
                    i3 <= batch,
                    new_done == self.parts_done,
                    new_done + batch <= self.total_parts,
                    self.total_parts as int <= u64::MAX,
                    nums2@.len() == i3,
                    forall|k: int| 0 <= k < i3 ==> #[trigger] nums2@[k] == new_done + 1 + k,
                decreases batch - i3,
            {
                nums2.push((new_done as u64) + 1 + (i3 as u64));
                i3 = i3 + 1;
            }
            let uid: String = match &self.upload_id {
                Some(x) => x.clone(),
                None => {
                    proof {
                        assert(false);
                    }
                    String::new()
                },
            };
            let key: String = match &self.object_key {
                Some(x) => x.clone(),
                None => {
                    proof {
                        assert(false);
                    }
                    String::new()
                },
            };
            self.phase = UploadPhase::UrlsRequested;
            UploadAction::RequestPartUrls {
                params: GetUploadUrlsParams {
                    upload_id: uid,
                    object_key: key,
                    part_numbers: nums2,
                },
            }
        }
    }

    /// A remote call failed. A multipart failure past initiate first
    /// issues exactly one best-effort abort for the session; a single-part
    /// or pre-initiate failure concludes with the error at once. No
    /// completion is ever attempted after a failure.
    pub fn on_remote_failed(&mut self, error: Error) -> (a: UploadAction)
        requires
            old(self).wf(),
            old(self).phase == UploadPhase::SingleRequested || old(self).phase
                == UploadPhase::SingleTransferring || old(self).phase
                == UploadPhase::SingleCompleting || old(self).phase
                == UploadPhase::MultiInitiating || old(self).phase == UploadPhase::UrlsRequested
                || old(self).phase == UploadPhase::BatchTransferring || old(self).phase
                == UploadPhase::MultiCompleting,
        ensures
            final(self).wf(),
            final(self).spec_same_file(&*old(self)),
            final(self).bytes_done >= old(self).bytes_done,
            if old(self).phase == UploadPhase::UrlsRequested || old(self).phase
                == UploadPhase::BatchTransferring || old(self).phase
                == UploadPhase::MultiCompleting {
                &&& final(self).phase == UploadPhase::Aborting
                &&& final(self).failure == Some(error)
                &&& spec_abort_action(&a, &*old(self))
            } else {
                &&& final(self).phase == UploadPhase::Failed
                &&& a matches UploadAction::Conclude { outcome } && outcome == Err::<
                    String,
                    Error,
                >(error)
            },
    {
        let past_initiate = match self.phase {
            UploadPhase::UrlsRequested => true,
            UploadPhase::BatchTransferring => true,
            UploadPhase::MultiCompleting => true,
            _ => false,
        };
        if past_initiate {
            let a = self.abort_action();
            self.failure = Some(error);
            self.phase = UploadPhase::Aborting;
            a
        } else {
            self.phase = UploadPhase::Failed;
            UploadAction::Conclude { outcome: Err(error) }
        }
    }

    /// An external cancellation signal. A session past initiate is
    /// aborted best-effort first; either way the flow concludes with a
    /// cancellation error.
    pub fn on_cancelled(&mut self) -> (a: UploadAction)
        requires
            old(self).wf(),
            old(self).phase == UploadPhase::SingleRequested || old(self).phase
                == UploadPhase::SingleTransferring || old(self).phase
                == UploadPhase::SingleCompleting || old(self).phase
                == UploadPhase::MultiInitiating || old(self).phase == UploadPhase::UrlsRequested
                || old(self).phase == UploadPhase::BatchTransferring || old(self).phase
                == UploadPhase::MultiCompleting,
        ensures
            final(self).wf(),
            final(self).spec_same_file(&*old(self)),
            final(self).bytes_done >= old(self).bytes_done,
            if old(self).spec_session_known() {
                &&& final(self).phase == UploadPhase::Aborting
                &&& final(self).failure matches Some(e) && e is UploadError && e.spec_text()
                    == "Upload cancelled"@
                &&& spec_abort_action(&a, &*old(self))
            } else {
                &&& final(self).phase == UploadPhase::Failed
                &&& a matches UploadAction::Conclude { outcome } && (outcome matches Err(e)
                    && e is UploadError && e.spec_text() == "Upload cancelled"@)
            },
    {
        let cancel_error = Error::UploadError("Upload cancelled".to_owned());
        let has_session = self.build_id.is_some() && self.object_key.is_some();
        if has_session {
            let a = self.abort_action();
            self.failure = Some(cancel_error);
            self.phase = UploadPhase::Aborting;
            a
        } else {
            self.phase = UploadPhase::Failed;
            UploadAction::Conclude { outcome: Err(cancel_error) }
        }
    }

    /// The best-effort abort finished, successfully or not; the flow
    /// concludes with the failure that triggered it.
    pub fn on_abort_acknowledged(&mut self, _success: bool) -> (a: UploadAction)
        requires
            old(self).wf(),
            old(self).phase == UploadPhase::Aborting,
        ensures
            final(self).wf(),
            final(self).phase == UploadPhase::Failed,
            final(self).spec_same_file(&*old(self)),
            final(self).bytes_done >= old(self).bytes_done,
            a matches UploadAction::Conclude { outcome } && outcome == Err::<String, Error>(
                old(self).failure.unwrap(),
            ),
    {
        let e = match self.failure.take() {
            Some(e) => e,
            None => {
                proof {
                    assert(false);
                }
                Error::UploadError(String::new())
            },
        };
        self.phase = UploadPhase::Failed;
        UploadAction::Conclude { outcome: Err(e) }
    }
}

} // verus!
