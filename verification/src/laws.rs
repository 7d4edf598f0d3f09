//! Properties that hold of every input: what the bridge promises as a whole.

use crate::events::{GiteaEvent, PullRequestEvent, PushEvent};
use crate::processor::{
    branch_of_ref, branch_ref_prefix, deleted_branch_sha, event_trigger, pull_request_trigger,
    push_commit_sha, push_trigger,
};
use crate::text::{decimal, decimal_digits, digit_char, has_prefix, trim_end_char};
use crate::gitea_api::commit_status_url_spec;
use crate::http_status::{spec_is_redirection, spec_is_success};
use crate::jenkins_api::build_url_spec;
use crate::webhook::{
    expected_signature, gitea_state_of, hex_digit, hex_lower, hmac_sha256, screening_of, EventKind, Screening,
};
use vstd::prelude::*;
use vstd::utf8::encode_utf8;

verus! {

/// Every build request the processor issues names the job it was made for.
pub proof fn law_requests_name_the_configured_job(job: Seq<char>, event: GiteaEvent)
    ensures
        event_trigger(job, event) matches Some(r) ==> r.job_name == job,
{
}

/// A build request made for a push says `push` and carries no pull request number.
pub proof fn law_push_requests_have_no_pr_id(job: Seq<char>, event: PushEvent)
    ensures
        push_trigger(job, event) matches Some(r) ==> r.params.event_type == "push"@
            && r.params.pr_id is None,
{
}

/// A build request made for a pull request says `pull_request` and carries the pull
/// request's number in decimal.
pub proof fn law_pr_requests_carry_their_number(job: Seq<char>, event: PullRequestEvent)
    ensures
        pull_request_trigger(job, event) matches Some(r) ==> r.params.event_type
            == "pull_request"@ && r.params.pr_id == Some(decimal(event.number as int)),
{
}

/// A push builds exactly when it did not delete its branch.
pub proof fn law_deleted_branches_are_not_built(job: Seq<char>, event: PushEvent)
    ensures
        push_trigger(job, event) is None <==> push_commit_sha(event) == deleted_branch_sha(),
{
}

/// A pull request event builds exactly when its action is not `closed`.
pub proof fn law_closed_pull_requests_are_not_built(job: Seq<char>, event: PullRequestEvent)
    ensures
        pull_request_trigger(job, event) is None <==> event.action@ == "closed"@,
{
}

/// An unrecognised event never starts a build.
pub proof fn law_unknown_events_are_not_built(job: Seq<char>, value: serde_json::Value)
    ensures
        event_trigger(job, GiteaEvent::Unknown(value)) is None,
{
}

/// The branch built for `refs/heads/{b}` is `b`: stripping undoes the prefix.
pub proof fn law_branch_prefix_is_stripped(branch: Seq<char>)
    ensures
        branch_of_ref(branch_ref_prefix() + branch) == branch,
{
    let r = branch_ref_prefix() + branch;
    assert(r.take(branch_ref_prefix().len() as int) =~= branch_ref_prefix());
    assert(r.skip(branch_ref_prefix().len() as int) =~= branch);
}

/// A reference outside `refs/heads/` is built under its own name.
pub proof fn law_other_references_are_kept(reference: Seq<char>)
    requires
        !has_prefix(reference, branch_ref_prefix()),
    ensures
        branch_of_ref(reference) == reference,
{
}

proof fn lemma_decimal_digits_are_digits(n: nat)
    ensures
        decimal_digits(n).len() >= 1,
        forall|i: int|
            0 <= i < decimal_digits(n).len() ==> 48 <= (#[trigger] decimal_digits(n)[i]) as u32
                <= 57,
    decreases n,
{
    if n >= 10 {
        lemma_decimal_digits_are_digits(n / 10);
        assert forall|i: int| 0 <= i < decimal_digits(n).len() implies 48 <= (
        #[trigger] decimal_digits(n)[i]) as u32 <= 57 by {
            if i < decimal_digits(n / 10).len() {
                assert(decimal_digits(n)[i] == decimal_digits(n / 10)[i]);
            }
        }
    }
}

proof fn lemma_decimal_digits_injective(a: nat, b: nat)
    requires
        decimal_digits(a) == decimal_digits(b),
    ensures
        a == b,
    decreases a,
{
    lemma_decimal_digits_are_digits(a);
    lemma_decimal_digits_are_digits(b);
    if a < 10 && b < 10 {
        assert(decimal_digits(a)[0] == digit_char(a));
        assert(decimal_digits(b)[0] == digit_char(b));
    } else if a < 10 {
        lemma_decimal_digits_are_digits(b / 10);
        assert(decimal_digits(b).len() >= 2);
    } else if b < 10 {
        lemma_decimal_digits_are_digits(a / 10);
        assert(decimal_digits(a).len() >= 2);
    } else {
        let da = decimal_digits(a);
        let db = decimal_digits(b);
        assert(da.last() == digit_char(a % 10));
        assert(db.last() == digit_char(b % 10));
        assert(a % 10 == b % 10);
        assert(da.drop_last() =~= decimal_digits(a / 10));
        assert(db.drop_last() =~= decimal_digits(b / 10));
        lemma_decimal_digits_injective(a / 10, b / 10);
    }
}

/// Distinct pull request numbers get distinct `PR_ID`s: decimal text is injective.
pub proof fn law_pr_ids_distinguish_numbers(a: int, b: int)
    requires
        decimal(a) == decimal(b),
    ensures
        a == b,
{
    if a < 0 && b < 0 {
        assert(decimal_digits((-a) as nat) =~= decimal(a).drop_first());
        assert(decimal_digits((-b) as nat) =~= decimal(b).drop_first());
        lemma_decimal_digits_injective((-a) as nat, (-b) as nat);
    } else if a < 0 {
        lemma_decimal_digits_are_digits(b as nat);
        assert(decimal(a)[0] == '-');
        assert(48 <= decimal_digits(b as nat)[0] as u32);
        assert(decimal(b)[0] == decimal_digits(b as nat)[0]);
    } else if b < 0 {
        lemma_decimal_digits_are_digits(a as nat);
        assert(decimal(b)[0] == '-');
        assert(48 <= decimal_digits(a as nat)[0] as u32);
        assert(decimal(a)[0] == decimal_digits(a as nat)[0]);
    } else {
        lemma_decimal_digits_injective(a as nat, b as nat);
    }
}

/// A Jenkins build status always becomes one of the states Gitea accepts
/// (`pending`, `success`, `error`, `failure`, `warning`).
pub proof fn law_gitea_states_are_valid(build_status: Seq<char>)
    ensures
        ({
            let s = gitea_state_of(build_status);
            s == "pending"@ || s == "success"@ || s == "error"@ || s == "failure"@ || s
                == "warning"@
        }),
{
}

/// A normalized base URL does not end with `/`, and normalizing it again changes nothing.
pub proof fn law_normalized_urls_are_stable(url: Seq<char>)
    ensures
        trim_end_char(url, '/').len() == 0 || trim_end_char(url, '/').last() != '/',
        trim_end_char(trim_end_char(url, '/'), '/') == trim_end_char(url, '/'),
    decreases url.len(),
{
    if url.len() > 0 && url.last() == '/' {
        law_normalized_urls_are_stable(url.drop_last());
    }
}

/// Without a secret no delivery is refused.
pub proof fn law_no_secret_no_refusal(
    signature: Option<Seq<char>>,
    event_header: Option<Seq<char>>,
    body: Seq<u8>,
)
    ensures
        screening_of(None, signature, event_header, body) != Screening::Unauthorized,
{
}

/// With a secret, a delivery without a signature is refused.
pub proof fn law_secret_requires_signature(
    secret: Seq<char>,
    event_header: Option<Seq<char>>,
    body: Seq<u8>,
)
    ensures
        screening_of(Some(secret), None, event_header, body) == Screening::Unauthorized,
{
}

/// With a secret, a delivery is let through exactly when it is signed with the secret.
pub proof fn law_only_signed_deliveries_pass(
    secret: Seq<char>,
    signature: Seq<char>,
    event_header: Option<Seq<char>>,
    body: Seq<u8>,
)
    ensures
        screening_of(Some(secret), Some(signature), event_header, body) != Screening::Unauthorized
            <==> signature == expected_signature(secret, body),
{
}

/// A push that is not a branch deletion is built: on the pushed branch (its reference with a
/// leading `refs/heads/` removed, with or without a head commit), at the head commit or else
/// the `after` SHA, in the event's repository, for the processor's job.
pub proof fn law_push_builds_the_pushed_branch(job: Seq<char>, event: PushEvent)
    ensures
        ({
            let reference = event.ref_field@;
            let prefix = "refs/heads/"@;
            let sha = match event.head_commit {
                Some(c) => c.id@,
                None => event.after@,
            };
            let branch = if prefix.len() <= reference.len() && reference.subrange(
                0,
                prefix.len() as int,
            ) == prefix {
                reference.subrange(prefix.len() as int, reference.len() as int)
            } else {
                reference
            };
            sha != "0000000000000000000000000000000000000000"@ ==> (push_trigger(job, event) matches Some(r)
                && r.job_name == job && r.params.branch_name == branch && r.params.commit_sha == sha
                && r.params.gitea_repo_url == event.repository.html_url@)
        }),
{
    let reference = event.ref_field@;
    let prefix = "refs/heads/"@;
    if prefix.len() <= reference.len() {
        assert(reference.take(prefix.len() as int) =~= reference.subrange(0, prefix.len() as int));
        assert(reference.skip(prefix.len() as int) =~= reference.subrange(
            prefix.len() as int,
            reference.len() as int,
        ));
    }
}

/// Pushes with the same reference build the same branch, whatever else differs (head commit
/// or not, repository): the branch comes from the reference alone.
pub proof fn law_push_branch_ignores_head_commit(job: Seq<char>, e1: PushEvent, e2: PushEvent)
    requires
        e1.ref_field@ == e2.ref_field@,
    ensures
        (push_trigger(job, e1) is Some && push_trigger(job, e2) is Some) ==> push_trigger(
            job,
            e1,
        )->0.params.branch_name == push_trigger(job, e2)->0.params.branch_name,
{
}

/// A pull request event whose action is not `closed` is built, whatever the action: at the
/// head commit of the pull request, on its head branch, in the event's repository, for the
/// processor's job.
pub proof fn law_pr_builds_its_head(job: Seq<char>, event: PullRequestEvent)
    ensures
        event.action@ != "closed"@ ==> (pull_request_trigger(job, event) matches Some(r)
            && r.job_name == job && r.params.commit_sha == event.pull_request.head.sha@
            && r.params.branch_name == event.pull_request.head.ref_field@
            && r.params.gitea_repo_url == event.repository.html_url@),
{
}

/// Pull request events that differ only in their base branch give the same build.
pub proof fn law_pr_build_ignores_base(job: Seq<char>, e1: PullRequestEvent, e2: PullRequestEvent)
    requires
        e1.action@ == e2.action@,
        e1.number == e2.number,
        e1.pull_request.head.sha@ == e2.pull_request.head.sha@,
        e1.pull_request.head.ref_field@ == e2.pull_request.head.ref_field@,
        e1.repository.html_url@ == e2.repository.html_url@,
    ensures
        pull_request_trigger(job, e1) == pull_request_trigger(job, e2),
{
}

/// A delivery that is not refused (no secret set, or signed with the hex HMAC-SHA256 of the
/// body under the secret's UTF-8 bytes) is read exactly as its `X-Gitea-Event` header names
/// it, whether or not a secret is set; other headers are acknowledged and ignored.
pub proof fn law_accepted_deliveries_follow_the_header(
    secret: Option<Seq<char>>,
    signature: Option<Seq<char>>,
    event_header: Option<Seq<char>>,
    body: Seq<u8>,
)
    requires
        match secret {
            None => true,
            Some(k) => signature == Some(hex_lower(hmac_sha256(encode_utf8(k), body))),
        },
    ensures
        event_header == Some("push"@) ==> screening_of(secret, signature, event_header, body)
            == Screening::Read(EventKind::Push),
        event_header == Some("pull_request"@) ==> screening_of(
            secret,
            signature,
            event_header,
            body,
        ) == Screening::Read(EventKind::PullRequest),
        (event_header != Some("push"@) && event_header != Some("pull_request"@)) ==> screening_of(
            secret,
            signature,
            event_header,
            body,
        ) == Screening::Ignored,
        screening_of(secret, signature, event_header, body) == screening_of(
            None,
            None,
            event_header,
            body,
        ),
{
    reveal_strlit("push");
    reveal_strlit("pull_request");
    assert("push"@.len() != "pull_request"@.len());
}

/// The address that starts a build is the base URL, `/job/`, the job name verbatim, and
/// `/buildWithParameters`, in that order.
pub proof fn law_build_url_carries_the_job(base_url: Seq<char>, job_name: Seq<char>)
    ensures
        ({
            let u = build_url_spec(base_url, job_name);
            let a: int = base_url.len() + "/job/"@.len() as int;
            let b: int = a + job_name.len();
            &&& u.len() == b + "/buildWithParameters"@.len()
            &&& u.subrange(0, base_url.len() as int) == base_url
            &&& u.subrange(base_url.len() as int, a) == "/job/"@
            &&& u.subrange(a, b) == job_name
            &&& u.subrange(b, u.len() as int) == "/buildWithParameters"@
        }),
{
    let u = build_url_spec(base_url, job_name);
    let a: int = base_url.len() + "/job/"@.len() as int;
    let b: int = a + job_name.len();
    assert(u.subrange(0, base_url.len() as int) =~= base_url);
    assert(u.subrange(base_url.len() as int, a) =~= "/job/"@);
    assert(u.subrange(a, b) =~= job_name);
    assert(u.subrange(b, u.len() as int) =~= "/buildWithParameters"@);
}

/// Distinct jobs are started at distinct addresses.
pub proof fn law_distinct_jobs_distinct_build_urls(base_url: Seq<char>, j1: Seq<char>, j2: Seq<char>)
    requires
        build_url_spec(base_url, j1) == build_url_spec(base_url, j2),
    ensures
        j1 == j2,
{
    law_build_url_carries_the_job(base_url, j1);
    law_build_url_carries_the_job(base_url, j2);
}

/// The commit status address is the base URL, `/api/v1/repos/`, the owner, `/`, the
/// repository, `/statuses/` and the SHA verbatim, in that order, for a SHA of any length.
pub proof fn law_commit_status_url_parts(
    base_url: Seq<char>,
    owner: Seq<char>,
    repo: Seq<char>,
    sha: Seq<char>,
)
    ensures
        ({
            let u = commit_status_url_spec(base_url, owner, repo, sha);
            let a: int = base_url.len() + "/api/v1/repos/"@.len() as int;
            let b: int = a + owner.len();
            let c: int = b + "/"@.len();
            let d: int = c + repo.len();
            let e: int = d + "/statuses/"@.len();
            &&& u.len() == e + sha.len()
            &&& u.subrange(0, base_url.len() as int) == base_url
            &&& u.subrange(base_url.len() as int, a) == "/api/v1/repos/"@
            &&& u.subrange(a, b) == owner
            &&& u.subrange(b, c) == "/"@
            &&& u.subrange(c, d) == repo
            &&& u.subrange(d, e) == "/statuses/"@
            &&& u.subrange(e, u.len() as int) == sha
        }),
{
    let u = commit_status_url_spec(base_url, owner, repo, sha);
    let a: int = base_url.len() + "/api/v1/repos/"@.len() as int;
    let b: int = a + owner.len();
    let c: int = b + "/"@.len();
    let d: int = c + repo.len();
    let e: int = d + "/statuses/"@.len();
    assert(u.subrange(0, base_url.len() as int) =~= base_url);
    assert(u.subrange(base_url.len() as int, a) =~= "/api/v1/repos/"@);
    assert(u.subrange(a, b) =~= owner);
    assert(u.subrange(b, c) =~= "/"@);
    assert(u.subrange(c, d) =~= repo);
    assert(u.subrange(d, e) =~= "/statuses/"@);
    assert(u.subrange(e, u.len() as int) =~= sha);
}

/// Distinct commits of one repository have distinct commit status addresses.
pub proof fn law_distinct_commits_distinct_status_urls(
    base_url: Seq<char>,
    owner: Seq<char>,
    repo: Seq<char>,
    sha1: Seq<char>,
    sha2: Seq<char>,
)
    requires
        commit_status_url_spec(base_url, owner, repo, sha1) == commit_status_url_spec(
            base_url,
            owner,
            repo,
            sha2,
        ),
    ensures
        sha1 == sha2,
{
    law_commit_status_url_parts(base_url, owner, repo, sha1);
    law_commit_status_url_parts(base_url, owner, repo, sha2);
}

/// Decimal text is built digit by digit: a number below ten is its one digit (the ASCII
/// character `'0' + d`), and `10 * n + d` for `n > 0` is the text of `n` followed by the digit
/// `d`; a negative number is `-` before the text of its magnitude.
pub proof fn law_decimal_is_positional(n: nat, d: nat, i: int)
    requires
        d < 10,
    ensures
        digit_char(d) as u32 == 48 + d,
        n == 0 ==> decimal_digits(10 * n + d) == seq![digit_char(d)],
        n > 0 ==> decimal_digits(10 * n + d) == decimal_digits(n).push(digit_char(d)),
        i < 0 ==> decimal(i) == seq!['-'] + decimal(-i),
        i >= 0 ==> decimal(i) == decimal_digits(i as nat),
{
    assert((10 * n + d) / 10 == n) by (nonlinear_arith)
        requires
            d < 10,
    ;
    assert((10 * n + d) % 10 == d) by (nonlinear_arith)
        requires
            d < 10,
    ;
}

/// Hexadecimal text has two characters per byte: at `2 i` the digit of the byte's high half and
/// at `2 i + 1` that of its low half, digits being `0`–`9` then `a`–`f`.
pub proof fn law_hex_two_digits_per_byte(bytes: Seq<u8>)
    ensures
        hex_lower(bytes).len() == 2 * bytes.len(),
        forall|i: int|
            0 <= i < bytes.len() ==> hex_lower(bytes)[2 * i] == hex_digit((bytes[i] / 16) as nat)
                && hex_lower(bytes)[2 * i + 1] == hex_digit((bytes[i] % 16) as nat),
        forall|n: nat|
            n < 16 ==> (#[trigger] hex_digit(n)) as u32 == if n < 10 {
                48 + n
            } else {
                87 + n
            },
    decreases bytes.len(),
{
    if bytes.len() > 0 {
        law_hex_two_digits_per_byte(bytes.drop_first());
        let rest = bytes.drop_first();
        assert forall|i: int| 0 <= i < bytes.len() implies hex_lower(bytes)[2 * i] == hex_digit(
            (bytes[i] / 16) as nat,
        ) && hex_lower(bytes)[2 * i + 1] == hex_digit((bytes[i] % 16) as nat) by {
            if i > 0 {
                assert(bytes[i] == rest[i - 1]);
                assert(hex_lower(bytes)[2 * i] == hex_lower(rest)[2 * (i - 1)]);
                assert(hex_lower(bytes)[2 * i + 1] == hex_lower(rest)[2 * (i - 1) + 1]);
            }
        }
    }
}

/// Each Jenkins build status has its Gitea state: `SUCCESS` is `success`; `FAILURE`,
/// `UNSTABLE` and `ABORTED` are `failure`; `IN_PROGRESS` is `pending`; any other is `warning`.
pub proof fn law_gitea_state_table(build_status: Seq<char>)
    ensures
        build_status == "SUCCESS"@ ==> gitea_state_of(build_status) == "success"@,
        build_status == "FAILURE"@ ==> gitea_state_of(build_status) == "failure"@,
        build_status == "UNSTABLE"@ ==> gitea_state_of(build_status) == "failure"@,
        build_status == "ABORTED"@ ==> gitea_state_of(build_status) == "failure"@,
        build_status == "IN_PROGRESS"@ ==> gitea_state_of(build_status) == "pending"@,
        (build_status != "SUCCESS"@ && build_status != "FAILURE"@ && build_status != "UNSTABLE"@
            && build_status != "ABORTED"@ && build_status != "IN_PROGRESS"@) ==> gitea_state_of(
            build_status,
        ) == "warning"@,
{
    reveal_strlit("SUCCESS");
    reveal_strlit("FAILURE");
    reveal_strlit("UNSTABLE");
    reveal_strlit("ABORTED");
    reveal_strlit("IN_PROGRESS");
    assert("SUCCESS"@[0] != "FAILURE"@[0]);
    assert("SUCCESS"@[0] != "UNSTABLE"@[0]);
    assert("SUCCESS"@[0] != "ABORTED"@[0]);
    assert("SUCCESS"@[0] != "IN_PROGRESS"@[0]);
    assert("FAILURE"@[0] != "IN_PROGRESS"@[0]);
    assert("UNSTABLE"@[0] != "IN_PROGRESS"@[0]);
    assert("ABORTED"@[0] != "IN_PROGRESS"@[0]);
}

/// Normalizing a URL removes trailing slashes and nothing else: the result is a prefix of the
/// URL and everything after it is `/`.
pub proof fn law_normalize_removes_only_trailing_slashes(url: Seq<char>)
    ensures
        has_prefix(url, trim_end_char(url, '/')),
        forall|i: int| trim_end_char(url, '/').len() <= i < url.len() ==> url[i] == '/',
    decreases url.len(),
{
    if url.len() > 0 && url.last() == '/' {
        law_normalize_removes_only_trailing_slashes(url.drop_last());
        let t = trim_end_char(url, '/');
        assert(url.take(t.len() as int) =~= url.drop_last().take(t.len() as int));
        assert forall|i: int| t.len() <= i < url.len() implies url[i] == '/' by {
            if i < url.len() - 1 {
                assert(url[i] == url.drop_last()[i]);
            }
        }
    } else {
        assert(url.take(url.len() as int) =~= url);
    }
}

/// A success is a status from 200 to 299, a redirection one from 300 to 399.
pub proof fn law_status_classes(code: u16)
    ensures
        spec_is_success(code) <==> 200 <= code <= 299,
        spec_is_redirection(code) <==> 300 <= code <= 399,
{
}

} // verus!
