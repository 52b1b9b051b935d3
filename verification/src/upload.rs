use vstd::prelude::*;
use vstd::seq_lib::*;

use crate::configuration::{Configuration, S3Configuration};
use crate::error::{ErrorSpec, NeboError, text_result_view};
use crate::http::opt_view;
use crate::text::{cat, contains, contains_seq, str_eq};

verus! {

broadcast use vstd::seq_lib::group_to_multiset_ensures;

/// Identity pool of a local test installation, which has no identity service.
pub open spec fn local_test_spec() -> Seq<char> {
    "LOCAL_TEST"@
}

/// Key that says the stored pages are not encrypted.
pub open spec fn no_kms_spec() -> Seq<char> {
    "NO_KMS_KEY"@
}

/// Size of the parts of a multipart upload, and the largest file sent in one request.
pub const READ_BUFFER_SIZE: u64 = 5242880;

/// How the storage place is reached.
#[derive(Debug)]
pub enum RegionChoice {
    /// A storage of a local test installation, at `endpoint`.
    Custom { name: String, endpoint: String },
    /// A region of the cloud provider, by its canonical name.
    Named(String),
}

/// What a [`RegionChoice`] holds, as character sequences.
pub enum RegionChoiceSpec {
    Custom { name: Seq<char>, endpoint: Seq<char> },
    Named(Seq<char>),
}

impl View for RegionChoice {
    type V = RegionChoiceSpec;

    open spec fn view(&self) -> RegionChoiceSpec {
        match self {
            RegionChoice::Custom { name, endpoint } => RegionChoiceSpec::Custom { name: name@, endpoint: endpoint@ },
            RegionChoice::Named(n) => RegionChoiceSpec::Named(n@),
        }
    }
}

/// What `rusoto_core::Region::from_str` makes of a region name: the canonical name of
/// the region (`Region::name`), or the text of the parse error.
pub uninterp spec fn region_parsed(name: Seq<char>) -> Result<Seq<char>, Seq<char>>;

/// Parses `name` with `rusoto_core::Region::from_str` and gives the canonical name of the
/// region (`Region::name()`), or the text of the parse error. The contract claims only
/// that this is `region_parsed` of the characters given.
#[verifier::external_body]
pub(crate) fn parse_region(name: &str) -> (r: Result<String, String>)
    ensures
        match r {
            Ok(n) => region_parsed(name@) == Ok::<Seq<char>, Seq<char>>(n@),
            Err(e) => region_parsed(name@) == Err::<Seq<char>, Seq<char>>(e@),
        },
{
    match <rusoto_core::Region as std::str::FromStr>::from_str(name) {
        Ok(region) => Ok(region.name().to_string()),
        Err(e) => Err(e.to_string()),
    }
}

/// The identity pool is the one of a local test installation.
pub fn is_local_test(identity_pool_id: &str) -> (r: bool)
    ensures
        r == (identity_pool_id@ == local_test_spec()),
{
    str_eq(identity_pool_id, "LOCAL_TEST")
}

/// The region of the identity service, by its canonical name.
pub open spec fn identity_region_spec(configuration: Configuration) -> Result<Seq<char>, ErrorSpec> {
    match region_parsed(configuration.credentials.region@) {
        Ok(n) => Ok(n),
        Err(m) => Err(ErrorSpec::InvalidRegion(m)),
    }
}

/// The region of the identity service, by its canonical name.
pub fn identity_region(configuration: &Configuration) -> (r: Result<String, NeboError>)
    ensures
        text_result_view(r) == identity_region_spec(*configuration),
{
    match parse_region(configuration.credentials.region.as_str()) {
        Ok(n) => Ok(n),
        Err(m) => Err(NeboError::InvalidRegion(m)),
    }
}

/// Where pages are stored: for a local test installation, its storage region at its
/// endpoint, which must be given; else the region of the cloud provider.
pub open spec fn upload_region_spec(configuration: Configuration) -> Result<RegionChoiceSpec, ErrorSpec> {
    if configuration.credentials.identity_pool_id@ == local_test_spec() {
        match configuration.s3.service_endpoint {
            Some(ep) => Ok(RegionChoiceSpec::Custom { name: configuration.s3.region@, endpoint: ep@ }),
            None => Err(ErrorSpec::MissingServiceEndpoint),
        }
    } else {
        match region_parsed(configuration.s3.region@) {
            Ok(n) => Ok(RegionChoiceSpec::Named(n)),
            Err(m) => Err(ErrorSpec::InvalidRegion(m)),
        }
    }
}

/// A storage place or an error, by their views.
pub open spec fn region_result_view(r: Result<RegionChoice, NeboError>) -> Result<RegionChoiceSpec, ErrorSpec> {
    match r {
        Ok(c) => Ok(c@),
        Err(e) => Err(e@),
    }
}

/// Where pages are stored: for a local test installation, its storage region at its
/// endpoint, which must be given; else the region of the cloud provider.
pub fn upload_region(configuration: &Configuration) -> (r: Result<RegionChoice, NeboError>)
    ensures
        region_result_view(r) == upload_region_spec(*configuration),
{
    if is_local_test(configuration.credentials.identity_pool_id.as_str()) {
        match &configuration.s3.service_endpoint {
            Some(ep) => Ok(RegionChoice::Custom { name: configuration.s3.region.clone(), endpoint: ep.clone() }),
            None => Err(NeboError::MissingServiceEndpoint),
        }
    } else {
        match parse_region(configuration.s3.region.as_str()) {
            Ok(n) => Ok(RegionChoice::Named(n)),
            Err(m) => Err(NeboError::InvalidRegion(m)),
        }
    }
}

/// The user metadata stored with a page: its signature, whether it is shared with
/// MyScript and the login that collected it, each only when given.
pub open spec fn metadata_spec(login: Option<Seq<char>>, signature: Seq<char>, share_with_myscript: Option<Seq<char>>) -> Seq<(Seq<char>, Seq<char>)> {
    seq![("x-amz-meta-content-sha256"@, signature)] + match share_with_myscript {
        Some(s) => seq![("x-amz-meta-share-with-myscript"@, s)],
        None => Seq::empty(),
    } + match login {
        Some(l) => seq![("x-amz-meta-login"@, l)],
        None => Seq::empty(),
    }
}

/// An optional string slice as an optional character sequence.
pub open spec fn opt_str(o: Option<&str>) -> Option<Seq<char>> {
    match o {
        Some(s) => Some(s@),
        None => None,
    }
}

/// The user metadata stored with a page, as key and value pairs.
pub fn generate_metadata(login: Option<&str>, signature: &str, share_with_myscript: Option<&str>) -> (r: Vec<(String, String)>)
    ensures
        crate::http::pairs_view(r@) == metadata_spec(opt_str(login), signature@, opt_str(share_with_myscript)),
{
    let mut metadata: Vec<(String, String)> = Vec::new();
    metadata.push((String::from_str("x-amz-meta-content-sha256"), String::from_str(signature)));
    if let Some(s) = share_with_myscript {
        metadata.push((String::from_str("x-amz-meta-share-with-myscript"), String::from_str(s)));
    }
    if let Some(l) = login {
        metadata.push((String::from_str("x-amz-meta-login"), String::from_str(l)));
    }
    assert(crate::http::pairs_view(metadata@) =~= metadata_spec(opt_str(login), signature@, opt_str(share_with_myscript)));
    metadata
}

/// The key a page is stored under.
pub open spec fn s3_key_spec(prefix: Seq<char>, uuid: Seq<char>, signature: Seq<char>) -> Seq<char> {
    prefix + uuid + "_"@ + signature + ".nebo"@
}

/// The content disposition pages are stored with.
pub open spec fn content_disposition_spec() -> Seq<char> {
    "attachment; filename=page.nebo; filename*=UTF-8''page.nebo"@
}

/// The content type pages are stored with.
pub open spec fn content_type_spec() -> Seq<char> {
    "application/vnd.myscript.nebo"@
}

/// The part of a file of `len` bytes at index `i`: its number (from 1), the offset it
/// starts at and its length, at most [`READ_BUFFER_SIZE`] bytes.
pub open spec fn part_at(len: u64, i: int) -> (i64, u64, u64) {
    let offset = i * READ_BUFFER_SIZE;
    (
        (i + 1) as i64,
        offset as u64,
        (if len - offset < READ_BUFFER_SIZE { len - offset } else { READ_BUFFER_SIZE as int }) as u64,
    )
}

/// How many parts a file of `len` bytes is sent in.
pub open spec fn part_count(len: u64) -> int {
    (len + READ_BUFFER_SIZE - 1) / (READ_BUFFER_SIZE as int)
}

/// The parts a file of `len` bytes is sent in: consecutive pieces of
/// [`READ_BUFFER_SIZE`] bytes, the last one shorter when the size is not a multiple,
/// numbered from 1 in the order of the file.
pub fn part_plan(len: u64) -> (r: Vec<(i64, u64, u64)>)
    ensures
        r@.len() == part_count(len),
        forall|i: int| 0 <= i < r@.len() ==> #[trigger] r@[i] == part_at(len, i),
{
    let mut r: Vec<(i64, u64, u64)> = Vec::new();
    let mut offset: u64 = 0;
    let mut number: i64 = 1;
    while offset < len
        invariant_except_break
            offset == r@.len() * READ_BUFFER_SIZE,
            number == r@.len() + 1,
            offset <= len,
        invariant
            r@.len() == 0 || (r@.len() - 1) * READ_BUFFER_SIZE < len,
            forall|i: int| 0 <= i < r@.len() ==> #[trigger] r@[i] == part_at(len, i),
        ensures
            r@.len() * READ_BUFFER_SIZE >= len,
        decreases len - offset,
    {
        let rest = len - offset;
        let size = if rest < READ_BUFFER_SIZE { rest } else { READ_BUFFER_SIZE };
        proof {
            assert(r@.len() <= len);
        }
        r.push((number, offset, size));
        if rest <= READ_BUFFER_SIZE {
            break;
        }
        number = number + 1;
        offset = offset + READ_BUFFER_SIZE;
    }
    proof {
        let n = r@.len() as int;
        assert(n * READ_BUFFER_SIZE >= len);
        assert(n == 0 || (n - 1) * READ_BUFFER_SIZE < len);
        assert(n == part_count(len)) by (nonlinear_arith)
            requires
                n * 5242880 >= len,
                n == 0 || (n - 1) * 5242880 < len,
                n >= 0,
                len >= 0,
                part_count(len) == (len + 5242880 - 1) / 5242880,
        ;
    }
    r
}

/// The way a file is sent to the storage.
#[derive(PartialEq, Eq, Structural, Clone, Copy, Debug)]
pub enum TransferMode {
    /// In one request.
    Monopart,
    /// In parts of [`READ_BUFFER_SIZE`] bytes, sent side by side.
    Multipart,
}

/// A part of a multipart upload, once sent: its number and its entity tag.
#[derive(Debug)]
pub struct CompletedPart {
    pub e_tag: Option<String>,
    pub part_number: i64,
}

/// A sent part as a pair of plain values.
pub open spec fn part_view(p: CompletedPart) -> (i64, Option<Seq<char>>) {
    (p.part_number, opt_view(p.e_tag))
}

/// Sent parts as pairs of plain values.
pub open spec fn completed_view(s: Seq<CompletedPart>) -> Seq<(i64, Option<Seq<char>>)> {
    s.map_values(|p: CompletedPart| part_view(p))
}

/// Parts in increasing order of their numbers.
pub open spec fn sorted_by_number(s: Seq<(i64, Option<Seq<char>>)>) -> bool {
    forall|a: int, b: int| 0 <= a < b < s.len() ==> s[a].0 <= s[b].0
}

/// The first part upload that failed, in the order the outcomes arrived.
pub open spec fn first_failure(rs: Seq<Result<CompletedPart, String>>) -> Option<Seq<char>>
    decreases rs.len(),
{
    if rs.len() == 0 {
        None
    } else {
        match first_failure(rs.drop_last()) {
            Some(e) => Some(e),
            None => match rs.last() {
                Err(e) => Some(e@),
                Ok(_) => None,
            },
        }
    }
}

/// The sent parts among the outcomes, in the order they arrived.
pub open spec fn sent_parts(rs: Seq<Result<CompletedPart, String>>) -> Seq<(i64, Option<Seq<char>>)>
    decreases rs.len(),
{
    if rs.len() == 0 {
        Seq::empty()
    } else {
        match rs.last() {
            Ok(p) => sent_parts(rs.drop_last()).push(part_view(p)),
            Err(_) => sent_parts(rs.drop_last()),
        }
    }
}

/// A failure among the first outcomes is the first failure of all of them.
pub proof fn lemma_first_failure_prefix(rs: Seq<Result<CompletedPart, String>>, k: int)
    requires
        0 <= k <= rs.len(),
        first_failure(rs.take(k)) is Some,
    ensures
        first_failure(rs) == first_failure(rs.take(k)),
    decreases rs.len(),
{
    if rs.len() == k {
        assert(rs.take(k) =~= rs);
    } else {
        assert(rs.drop_last().take(k) =~= rs.take(k));
        lemma_first_failure_prefix(rs.drop_last(), k);
    }
}

/// A plan for sending a page to the storage: where it goes and what is stored with it,
/// with the progress of a multipart upload.
#[derive(Debug)]
pub struct TransferManager {
    pub key: String,
    pub bucket: String,
    pub content_disposition: Option<String>,
    pub content_type: Option<String>,
    pub server_side_encryption: Option<String>,
    pub ssekms_key_id: Option<String>,
    pub metadata: Option<Vec<(String, String)>>,
    pub transfert_done: bool,
    pub upload_id: Option<String>,
}

/// What a [`TransferManager`] holds, as character sequences.
pub struct ManagerSpec {
    pub key: Seq<char>,
    pub bucket: Seq<char>,
    pub content_disposition: Option<Seq<char>>,
    pub content_type: Option<Seq<char>>,
    pub server_side_encryption: Option<Seq<char>>,
    pub ssekms_key_id: Option<Seq<char>>,
    pub metadata: Option<Seq<(Seq<char>, Seq<char>)>>,
    pub transfert_done: bool,
    pub upload_id: Option<Seq<char>>,
}

impl View for TransferManager {
    type V = ManagerSpec;

    open spec fn view(&self) -> ManagerSpec {
        ManagerSpec {
            key: self.key@,
            bucket: self.bucket@,
            content_disposition: opt_view(self.content_disposition),
            content_type: opt_view(self.content_type),
            server_side_encryption: opt_view(self.server_side_encryption),
            ssekms_key_id: opt_view(self.ssekms_key_id),
            metadata: match self.metadata {
                Some(m) => Some(crate::http::pairs_view(m@)),
                None => None,
            },
            transfert_done: self.transfert_done,
            upload_id: opt_view(self.upload_id),
        }
    }
}

/// The plan for a page before anything is sent: stored under the client prefix, with the
/// page's content type and disposition, encrypted with the configured key unless the key
/// says otherwise, and with the page's metadata.
pub open spec fn manager_init_spec(
    uuid: Seq<char>,
    signature: Seq<char>,
    s3_config: S3Configuration,
    share_with_myscript: Option<Seq<char>>,
    collect_login: Option<Seq<char>>,
) -> ManagerSpec {
    let kms = s3_config.kms_key@ != no_kms_spec();
    ManagerSpec {
        key: s3_key_spec(s3_config.client_directory_prefix@, uuid, signature),
        bucket: s3_config.bucket@,
        content_disposition: Some(content_disposition_spec()),
        content_type: Some(content_type_spec()),
        server_side_encryption: if kms { Some("aws:kms"@) } else { None },
        ssekms_key_id: if kms { Some(s3_config.kms_key@) } else { None },
        metadata: Some(metadata_spec(collect_login, signature, share_with_myscript)),
        transfert_done: false,
        upload_id: None,
    }
}

/// A multipart upload was started under the plan and its parts were not assembled.
pub open spec fn needs_abort_spec(m: ManagerSpec) -> bool {
    m.upload_id is Some && !m.transfert_done
}

impl TransferManager {
    /// The plan for page `uuid` with `signature`: stored under the client prefix, with the
    /// page's content type and disposition, encrypted with the configured key unless the
    /// key says otherwise, and with the page's metadata; nothing is sent yet.
    pub fn init(
        uuid: &str,
        signature: &str,
        s3_config: &S3Configuration,
        share_with_myscript: Option<&str>,
        collect_login: Option<&str>,
    ) -> (r: TransferManager)
        ensures
            r@ == manager_init_spec(uuid@, signature@, *s3_config, opt_str(share_with_myscript), opt_str(collect_login)),
    {
        let mut key = cat(s3_config.client_directory_prefix.as_str(), uuid);
        key.append("_");
        key.append(signature);
        key.append(".nebo");
        let kms = !str_eq(s3_config.kms_key.as_str(), "NO_KMS_KEY");
        TransferManager {
            key: key,
            bucket: s3_config.bucket.clone(),
            content_disposition: Some(String::from_str("attachment; filename=page.nebo; filename*=UTF-8''page.nebo")),
            content_type: Some(String::from_str("application/vnd.myscript.nebo")),
            server_side_encryption: if kms { Some(String::from_str("aws:kms")) } else { None },
            ssekms_key_id: if kms { Some(s3_config.kms_key.clone()) } else { None },
            metadata: Some(generate_metadata(collect_login, signature, share_with_myscript)),
            transfert_done: false,
            upload_id: None,
        }
    }

    /// How a file of `file_len` bytes is sent: in parts when it is larger than one part.
    pub fn transfer(file_len: u64) -> (r: TransferMode)
        ensures
            r == (if file_len > READ_BUFFER_SIZE { TransferMode::Multipart } else { TransferMode::Monopart }),
    {
        if file_len > READ_BUFFER_SIZE {
            TransferMode::Multipart
        } else {
            TransferMode::Monopart
        }
    }

    /// Records the identifier the storage gave to a multipart upload, if it gave one.
    pub fn record_upload_id(&mut self, upload_id: Option<String>)
        ensures
            final(self).upload_id == upload_id,
            final(self)@ == (ManagerSpec { upload_id: opt_view(upload_id), ..old(self)@ }),
    {
        self.upload_id = upload_id;
    }

    /// The identifier every part is sent with.
    pub fn part_upload_id(&self) -> (r: Result<String, NeboError>)
        ensures
            match self.upload_id {
                Some(id) => r == Ok::<String, NeboError>(id),
                None => r matches Err(e) && e@ == ErrorSpec::MissingUploadId,
            },
    {
        match &self.upload_id {
            Some(id) => Ok(id.clone()),
            None => Err(NeboError::MissingUploadId),
        }
    }

    /// Records that the storage assembled the parts.
    pub fn mark_done(&mut self)
        ensures
            final(self)@ == (ManagerSpec { transfert_done: true, ..old(self)@ }),
            final(self).upload_id == old(self).upload_id,
    {
        self.transfert_done = true;
    }

    /// A multipart upload was started and not completed, so it must be aborted.
    pub fn needs_abort(&self) -> (r: bool)
        ensures
            r == needs_abort_spec(self@),
    {
        self.upload_id.is_some() && !self.transfert_done
    }
}

/// What sending a file in one request gives. The storage of a local test installation
/// answers a stored file with a reply the client cannot read, which counts as success.
pub fn monopart_outcome(result: Result<(), String>) -> (r: Result<(), NeboError>)
    ensures
        match result {
            Ok(()) => r is Ok,
            Err(m) => if contains_seq(m@, "Expected EndElement PutObjectResponse"@) {
                r is Ok
            } else {
                r == Err::<(), NeboError>(NeboError::Transport(m))
            },
        },
{
    match result {
        Ok(()) => Ok(()),
        Err(m) => {
            if contains(m.as_str(), "Expected EndElement PutObjectResponse") {
                Ok(())
            } else {
                Err(NeboError::Transport(m))
            }
        },
    }
}

/// `s` with `p` put before its first part of a greater number, or at its end.
pub open spec fn insert_by_number(s: Seq<(i64, Option<Seq<char>>)>, p: (i64, Option<Seq<char>>)) -> Seq<(i64, Option<Seq<char>>)>
    decreases s.len(),
{
    if s.len() == 0 {
        seq![p]
    } else if s[0].0 > p.0 {
        seq![p] + s
    } else {
        seq![s[0]] + insert_by_number(s.drop_first(), p)
    }
}

/// The sent parts among the outcomes, in increasing order of their numbers; parts of
/// equal numbers keep the order they arrived in.
pub open spec fn sorted_sent(rs: Seq<Result<CompletedPart, String>>) -> Seq<(i64, Option<Seq<char>>)>
    decreases rs.len(),
{
    if rs.len() == 0 {
        Seq::empty()
    } else {
        match rs.last() {
            Ok(p) => insert_by_number(sorted_sent(rs.drop_last()), part_view(p)),
            Err(_) => sorted_sent(rs.drop_last()),
        }
    }
}

/// Putting a part before the first part of a greater number is inserting it there.
pub proof fn lemma_insert_by_number(s: Seq<(i64, Option<Seq<char>>)>, p: (i64, Option<Seq<char>>), k: int)
    requires
        0 <= k <= s.len(),
        forall|j: int| 0 <= j < k ==> s[j].0 <= p.0,
        k < s.len() ==> s[k].0 > p.0,
    ensures
        insert_by_number(s, p) == s.insert(k, p),
    decreases s.len(),
{
    if s.len() == 0 {
        assert(seq![p] =~= s.insert(k, p));
    } else if k == 0 {
        assert(seq![p] + s =~= s.insert(0, p));
    } else {
        let t = s.drop_first();
        assert forall|j: int| 0 <= j < k - 1 implies t[j].0 <= p.0 by {
            assert(t[j] == s[j + 1]);
        }
        if k - 1 < t.len() {
            assert(t[k - 1] == s[k]);
        }
        lemma_insert_by_number(t, p, k - 1);
        assert(seq![s[0]] + t.insert(k - 1, p) =~= s.insert(k, p));
    }
}

/// The parts to assemble from the outcomes of the part uploads, in the order they
/// arrived: none when an upload stopped abnormally; the first failure when one failed;
/// else the sent parts in increasing order of their numbers, parts of equal numbers in
/// the order they arrived.
pub fn collect_parts(panicked: usize, results: Vec<Result<CompletedPart, String>>) -> (r: Result<Vec<CompletedPart>, NeboError>)
    ensures
        panicked > 0 ==> (r matches Err(e) && e@ == ErrorSpec::MultipartPanicked),
        panicked == 0 ==> match first_failure(results@) {
            Some(m) => r matches Err(e) && e@ == ErrorSpec::Transport(m),
            None => r matches Ok(parts) && completed_view(parts@) == sorted_sent(results@)
                && sorted_by_number(completed_view(parts@))
                && completed_view(parts@).to_multiset() == sent_parts(results@).to_multiset(),
        },
{
    if panicked > 0 {
        return Err(NeboError::MultipartPanicked);
    }
    let ghost rs = results@;
    let mut parts: Vec<CompletedPart> = Vec::new();
    let mut pending = results;
    let n = pending.len();
    let mut i: usize = 0;
    while i < n
        invariant
            panicked == 0,
            rs == results@,
            n == rs.len(),
            i <= n,
            pending@.len() + i == n,
            forall|j: int| 0 <= j < pending@.len() ==> pending@[j] == rs[j + i],
            first_failure(rs.take(i as int)) is None,
            completed_view(parts@) == sorted_sent(rs.take(i as int)),
            sorted_by_number(completed_view(parts@)),
            completed_view(parts@).to_multiset() == sent_parts(rs.take(i as int)).to_multiset(),
        decreases n - i,
    {
        let outcome = pending.remove(0);
        assert(outcome == rs[i as int]);
        proof {
            assert(rs.take(i + 1).drop_last() =~= rs.take(i as int));
            assert(rs.take(i + 1).last() == rs[i as int]);
        }
        match outcome {
            Err(m) => {
                proof {
                    assert(first_failure(rs.take(i + 1)) == Some(m@));
                    lemma_first_failure_prefix(rs, i + 1);
                    assert(first_failure(results@) == Some(m@));
                }
                return Err(NeboError::Transport(m));
            },
            Ok(part) => {
                let ghost before = completed_view(parts@);
                let number = part.part_number;
                let len = parts.len();
                let mut pos: usize = 0;
                while pos < len && parts[pos].part_number <= number
                    invariant
                        len == parts@.len(),
                        pos <= len,
                        before == completed_view(parts@),
                        forall|j: int| 0 <= j < pos ==> before[j].0 <= number,
                    decreases len - pos,
                {
                    pos = pos + 1;
                }
                let ghost pv = part_view(part);
                parts.insert(pos, part);
                proof {
                    assert(completed_view(parts@) =~= before.insert(pos as int, pv));
                    lemma_insert_by_number(before, pv, pos as int);
                    let after = completed_view(parts@);
                    assert forall|a: int, b: int| 0 <= a < b < after.len() implies after[a].0 <= after[b].0 by {
                        if b < pos {
                        } else if b == pos {
                        } else if a < pos {
                            if pos < len {
                                assert(before[pos as int].0 > number);
                            }
                            assert(before[a].0 <= number);
                            assert(before[b - 1].0 >= before[pos as int].0 || b - 1 == pos);
                        } else if a == pos {
                            assert(before[pos as int].0 > number);
                        } else {
                        }
                    }
                    to_multiset_insert(before, pos as int, pv);
                    to_multiset_build(sent_parts(rs.take(i as int)), pv);
                }
            },
        }
        i = i + 1;
    }
    proof {
        assert(rs.take(n as int) =~= rs);
    }
    Ok(parts)
}

} // verus!
