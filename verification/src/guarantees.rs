//! What holds of every scrape, proved from what each step of a scrape does.

use vstd::prelude::*;
use crate::errors::ScrapeError;
use crate::models::cvmfs_published::parse_manifest;
use crate::models::generic::Hostname;
use crate::models::geoapi::{all_indices, response_pieces};
use crate::models::meta_json::MetaJSON;
use crate::models::repositories_json::RepositoriesJSON;
use crate::models::resolved::lemma_sorted_unique;
use crate::models::servers::{ScrapedServer, Server, ServerBackendType, ServerType};
use crate::scrape::{
    fails_with_scrape_error, scrape_error_of, version_fault, ScrapePhase, ScrapeRequest,
    ScrapeResponse, ScrapeStep, ServerScrape,
};

verus! {

/// A stratum 0 contradicts a self-description that lists a replica; a stratum 1
/// and a sync server contradict one that lists none; and nothing else is a
/// contradiction.
pub proof fn lemma_role_contradictions(server_type: ServerType, has_replicas: bool)
    ensures
        Server::role_contradiction(server_type, has_replicas) is Some <==> (server_type
            == ServerType::Stratum0 && has_replicas) || (server_type == ServerType::Stratum1
            && !has_replicas) || (server_type == ServerType::SyncServer && !has_replicas),
{
}

/// A self-description that contradicts the role of the server fails the scrape,
/// whatever else it holds and whatever backend was configured.
pub proof fn lemma_role_contradiction_is_a_failure(
    pre: ServerScrape,
    json: RepositoriesJSON,
    post: ServerScrape,
    step: ScrapeStep,
)
    requires
        pre.after_repositories_json(Ok(json), post, step),
        Server::role_contradiction(pre.server.server_type, json.replicas.len() > 0) is Some,
    ensures
        fails_with_scrape_error(step, pre.server),
        post.phase == ScrapePhase::Finished,
{
}

/// A self-description that contradicts the role of the server fails the scrape
/// with a mismatch of the server type that names the hostname and what was found.
/// This holds where the backend is to be detected, and where the version in the
/// self-description can be read; with a configured backend, a version that cannot
/// be read is reported in its place.
pub proof fn lemma_role_contradiction_fails(
    pre: ServerScrape,
    json: RepositoriesJSON,
    post: ServerScrape,
    step: ScrapeStep,
)
    requires
        pre.after_repositories_json(Ok(json), post, step),
        Server::role_contradiction(pre.server.server_type, json.replicas.len() > 0) is Some,
        pre.server.backend_type == ServerBackendType::AutoDetect || version_fault(json) is None,
    ensures
        fails_with_scrape_error(step, pre.server),
        scrape_error_of(step) matches ScrapeError::ServerTypeMismatch(t) && t@
            == pre.server.hostname@ + Server::role_contradiction(
            pre.server.server_type,
            json.replicas.len() > 0,
        )->Some_0,
{
}

/// A self-description with a version that cannot be read fails the scrape with a
/// conversion error that carries the reason, where the backend is configured, and
/// where the self-description does not contradict the role of the server.
pub proof fn lemma_unreadable_version_fails(
    pre: ServerScrape,
    json: RepositoriesJSON,
    post: ServerScrape,
    step: ScrapeStep,
)
    requires
        pre.after_repositories_json(Ok(json), post, step),
        version_fault(json) is Some,
        pre.server.backend_type != ServerBackendType::AutoDetect || Server::role_contradiction(
            pre.server.server_type,
            json.replicas.len() > 0,
        ) is None,
    ensures
        fails_with_scrape_error(step, pre.server),
        scrape_error_of(step) matches ScrapeError::ConversionError(t) && t@ == version_fault(
            json,
        )->Some_0,
{
}

/// Where the backend is to be detected and the self-description cannot be fetched,
/// the backend is S3, and the scrape goes on with the repositories that it started
/// from: with the first of them, or, where there is none, with the contact file.
pub proof fn lemma_autodetect_falls_back_to_s3(
    pre: ServerScrape,
    error: ScrapeError,
    post: ServerScrape,
    step: ScrapeStep,
)
    requires
        pre.server.backend_type == ServerBackendType::AutoDetect,
        error is FetchError,
        pre.after_repositories_json(Err(error), post, step),
    ensures
        post.backend_detected == ServerBackendType::S3,
        post.names@ == pre.names@,
        post.repo_metadata.is_unset(),
        step is Fetch,
        pre.names@.len() == 0 ==> step == ScrapeStep::Fetch(ScrapeRequest::MetaJson) && post.phase
            == ScrapePhase::AwaitingMetaJson,
        pre.names@.len() > 0 ==> (step matches ScrapeStep::Fetch(
            ScrapeRequest::RepositoryStatus(name),
        ) && name@ == pre.names@[0]),
{
}

/// A scrape without repositories ends well once the contact file was asked for,
/// whatever came of that: the server is populated, with no repository and with
/// an empty answer of the GeoAPI.
pub proof fn lemma_no_repositories_is_no_failure(
    pre: ServerScrape,
    answer: Result<MetaJSON, ScrapeError>,
    post: ServerScrape,
    step: ScrapeStep,
)
    requires
        pre.wf(),
        pre.phase == ScrapePhase::AwaitingMetaJson,
        pre.names@.len() == 0,
        pre.after_meta_json(answer, post, step),
    ensures
        step matches ScrapeStep::Finished(ScrapedServer::Populated(server)) && server.repositories.len()
            == 0 && server.backend_detected == pre.backend_detected && server.geoapi.response.len()
            == 0,
{
}

/// A server with the S3 backend and no repository to scrape fails at the start,
/// for want of repositories; with a repository, its scrape starts with the first
/// one, and the self-description is never asked for.
pub proof fn lemma_s3_needs_repositories(
    server: Server,
    repositories: Seq<Seq<char>>,
    ignored_repositories: Seq<Seq<char>>,
    only_scrape_forced_repos: bool,
    geoapi_servers: Option<Vec<Hostname>>,
    state: ServerScrape,
    step: ScrapeStep,
)
    requires
        server.backend_type == ServerBackendType::S3,
        server.begins_scrape(
            repositories,
            ignored_repositories,
            only_scrape_forced_repos,
            geoapi_servers,
            state,
            step,
        ),
    ensures
        repositories.len() == 0 ==> state.names@.len() == 0,
        state.names@.len() == 0 ==> (fails_with_scrape_error(step, server) && (scrape_error_of(
            step,
        ) matches ScrapeError::EmptyRepositoryList(t) && t@ == server.hostname@)),
        state.names@.len() > 0 ==> (step matches ScrapeStep::Fetch(
            ScrapeRequest::RepositoryStatus(name),
        ) && name@ == state.names@[0]),
{
    if repositories.len() == 0 && state.names@.len() > 0 {
        let x = state.names@[0];
        assert(state.names@.contains(x));
        assert(repositories.contains(x));
    }
}

/// Whether the answer is one that lets a scrape go on: a self-description that is
/// consistent, or one that cannot be fetched where the backend is to be detected;
/// a status; a manifest that can be read; any contact file or none; an answer of
/// the GeoAPI that is a list of numbers.
pub open spec fn is_good_answer(pre: ServerScrape, response: ScrapeResponse) -> bool {
    match response {
        ScrapeResponse::RepositoriesJson(Ok(json)) => Server::role_contradiction(
            pre.server.server_type,
            json.replicas.len() > 0,
        ) is None && version_fault(json) is None,
        ScrapeResponse::RepositoriesJson(Err(e)) => pre.server.backend_type
            == ServerBackendType::AutoDetect && e is FetchError,
        ScrapeResponse::RepositoryStatus(answer) => answer is Ok,
        ScrapeResponse::RepositoryManifest(answer) => answer matches Ok(text) && parse_manifest(
            text@,
        ) is Ok,
        ScrapeResponse::MetaJson(_) => true,
        ScrapeResponse::Geoapi { token, body } => body matches Ok(text) && all_indices(
            response_pieces(text@),
        ),
    }
}

/// Whether the step ends a scrape in failure.
pub open spec fn is_failure(step: ScrapeStep) -> bool {
    step matches ScrapeStep::Finished(ScrapedServer::Failed(_))
}

/// A good answer never fails a scrape: the scrape asks for the next document, or
/// ends with the server populated.
pub proof fn lemma_good_answer_is_no_failure(
    pre: ServerScrape,
    response: ScrapeResponse,
    post: ServerScrape,
    step: ScrapeStep,
)
    requires
        pre.wf(),
        pre.accepts(response),
        is_good_answer(pre, response),
        pre.advances_to(response, post, step),
    ensures
        !is_failure(step),
        step matches ScrapeStep::Finished(outcome) ==> outcome is Populated,
{
}

/// An answer that is not good, other than a contact file, fails the scrape at
/// once: nothing that was scraped before it is returned.
pub proof fn lemma_bad_answer_is_a_failure(
    pre: ServerScrape,
    response: ScrapeResponse,
    post: ServerScrape,
    step: ScrapeStep,
)
    requires
        pre.wf(),
        pre.accepts(response),
        !is_good_answer(pre, response),
        pre.advances_to(response, post, step),
    ensures
        is_failure(step),
        post.phase == ScrapePhase::Finished,
{
}

/// A populated server carries the backend that the scrape settled on: never the
/// one that is yet to be detected, and the configured one where one was configured.
/// It carries the role, the configured backend and the hostname of the server that
/// was scraped.
pub proof fn lemma_populated_server_is_the_scraped_one(
    pre: ServerScrape,
    response: ScrapeResponse,
    post: ServerScrape,
    step: ScrapeStep,
)
    requires
        pre.wf(),
        pre.accepts(response),
        pre.advances_to(response, post, step),
        step matches ScrapeStep::Finished(ScrapedServer::Populated(_)),
    ensures
        ({
            let server = step->Finished_0->Populated_0;
            &&& server.backend_detected != ServerBackendType::AutoDetect
            &&& pre.server.backend_type != ServerBackendType::AutoDetect ==> server.backend_detected
                == pre.server.backend_type
            &&& server.server_type == pre.server.server_type
            &&& server.backend_type == pre.server.backend_type
            &&& server.hostname == pre.server.hostname
            &&& server.repositories == pre.populated
            &&& server.geoapi.hostname == pre.server.hostname
            &&& server.geoapi.geoapi_hosts == pre.geoapi_servers
        }),
{
}

/// The most requests that a scrape can still make once its repositories are
/// settled: two for each repository that is not yet scraped, one for the contact
/// file and one for the GeoAPI.
pub open spec fn requests_left(scrape: ServerScrape) -> int {
    let repositories = scrape.names@.len() - scrape.populated.len();
    match scrape.phase {
        ScrapePhase::AwaitingRepositoriesJson => 2 * repositories + 3,
        ScrapePhase::AwaitingStatus => 2 * repositories + 2,
        ScrapePhase::AwaitingManifest => 2 * repositories + 1,
        ScrapePhase::AwaitingMetaJson => 2,
        ScrapePhase::AwaitingGeoapi => 1,
        ScrapePhase::Finished => 0,
    }
}

/// Once the repositories are settled, every answer brings the scrape closer to its
/// end: a scrape of `n` repositories makes at most `2 * n + 2` requests after the
/// self-description.
pub proof fn lemma_every_answer_brings_the_end_closer(
    pre: ServerScrape,
    response: ScrapeResponse,
    post: ServerScrape,
    step: ScrapeStep,
)
    requires
        pre.wf(),
        pre.accepts(response),
        pre.phase != ScrapePhase::AwaitingRepositoriesJson,
        pre.advances_to(response, post, step),
    ensures
        0 <= requests_left(post) < requests_left(pre),
{
}

/// One request and its answer in the course of a scrape: the scrape before, the
/// answer, and the scrape and the step after.
pub struct Exchange {
    pub pre: ServerScrape,
    pub response: ScrapeResponse,
    pub post: ServerScrape,
    pub step: ScrapeStep,
}

/// Whether the exchange is a step of a scrape: the answer is one that the scrape
/// waits for, and the step is the one that the answer calls for.
pub open spec fn is_exchange(exchange: Exchange) -> bool {
    &&& exchange.pre.wf()
    &&& exchange.pre.accepts(exchange.response)
    &&& exchange.pre.advances_to(exchange.response, exchange.post, exchange.step)
}

/// Whether the exchanges are the course of a scrape from its start: each is a
/// step of the scrape, and each takes the scrape where the one before left it.
pub open spec fn is_course(start: ServerScrape, course: Seq<Exchange>) -> bool {
    forall|i: int|
        0 <= i < course.len() ==> {
            &&& #[trigger] is_exchange(course[i])
            &&& course[i].pre == if i == 0 {
                start
            } else {
                course[i - 1].post
            }
        }
}

/// A scrape that meets only good answers does not fail: whatever another scrape
/// meets, this one goes on until its server is populated.
pub proof fn lemma_good_course_is_no_failure(start: ServerScrape, course: Seq<Exchange>, i: int)
    requires
        is_course(start, course),
        0 <= i < course.len(),
        forall|k: int| 0 <= k < course.len() ==> is_good_answer(
            (#[trigger] course[k]).pre,
            course[k].response,
        ),
    ensures
        !is_failure(course[i].step),
        course[i].step matches ScrapeStep::Finished(outcome) ==> outcome is Populated,
{
    assert(is_exchange(course[i]));
    lemma_good_answer_is_no_failure(
        course[i].pre,
        course[i].response,
        course[i].post,
        course[i].step,
    );
}

/// A failure stays with its server: where one scrape fails, another that meets
/// only good answers still goes on until its server is populated.
pub proof fn lemma_failure_stays_with_its_server(
    failing_start: ServerScrape,
    failing: Seq<Exchange>,
    i: int,
    start: ServerScrape,
    course: Seq<Exchange>,
    j: int,
)
    requires
        is_course(failing_start, failing),
        0 <= i < failing.len(),
        is_failure(failing[i].step),
        is_course(start, course),
        0 <= j < course.len(),
        forall|k: int| 0 <= k < course.len() ==> is_good_answer(
            (#[trigger] course[k]).pre,
            course[k].response,
        ),
    ensures
        !is_failure(course[j].step),
        course[j].step matches ScrapeStep::Finished(outcome) ==> outcome is Populated,
{
    lemma_good_course_is_no_failure(start, course, j);
}

/// A step leaves the server, the ignored repositories and the hosts of the GeoAPI
/// as they are, unless it ends the scrape.
pub proof fn lemma_step_keeps_configuration(
    pre: ServerScrape,
    response: ScrapeResponse,
    post: ServerScrape,
    step: ScrapeStep,
)
    requires
        pre.wf(),
        pre.accepts(response),
        pre.advances_to(response, post, step),
    ensures
        post.phase != ScrapePhase::Finished ==> pre.same_configuration(post),
{
    match response {
        ScrapeResponse::RepositoriesJson(answer) => {
            assert(pre.after_repositories_json(answer, post, step));
        },
        ScrapeResponse::RepositoryStatus(answer) => {
            assert(pre.after_status(answer, post, step));
        },
        ScrapeResponse::RepositoryManifest(answer) => {
            assert(pre.after_manifest(answer, post, step));
        },
        ScrapeResponse::MetaJson(answer) => {
            assert(pre.after_meta_json(answer, post, step));
        },
        ScrapeResponse::Geoapi { token, body } => {
            assert(pre.after_geoapi(token, body, post, step));
        },
    }
}

/// In the course of a scrape, the server, the ignored repositories and the hosts of
/// the GeoAPI stay what they were at the start, until the scrape is over.
pub proof fn lemma_course_keeps_configuration(start: ServerScrape, course: Seq<Exchange>, i: int)
    requires
        is_course(start, course),
        0 <= i < course.len(),
    ensures
        start.same_configuration(course[i].pre),
        course[i].post.phase != ScrapePhase::Finished ==> start.same_configuration(course[i].post),
    decreases i,
{
    let here = course[i];
    assert(is_exchange(here));
    lemma_step_keeps_configuration(here.pre, here.response, here.post, here.step);
    if i > 0 {
        lemma_course_keeps_configuration(start, course, i - 1);
        let before = course[i - 1];
        assert(is_exchange(before));
        assert(here.pre == before.post);
        assert(here.pre.phase != ScrapePhase::Finished) by {
            assert(here.pre.accepts(here.response));
        }
    }
}

/// With only the forced repositories wanted, the self-description adds none: the
/// repositories to scrape stay exactly those that the scrape started from.
pub proof fn lemma_only_forced_adds_nothing(
    pre: ServerScrape,
    json: RepositoriesJSON,
    post: ServerScrape,
    step: ScrapeStep,
)
    requires
        pre.wf(),
        pre.phase == ScrapePhase::AwaitingRepositoriesJson,
        pre.only_forced,
        pre.after_repositories_json(Ok(json), post, step),
        !is_failure(step),
    ensures
        post.names@ == pre.names@,
{
    assert(pre.self_description_fault(json) is None);
    assert forall|x: Seq<char>| #![trigger post.names@.contains(x)]
        post.names@.contains(x) <==> pre.names@.contains(x) by {}
    lemma_sorted_unique(post.names@, pre.names@);
}

/// The repositories that a scrape visits are the forced ones and, unless only
/// those are wanted, the ones that the self-description advertises, in both cases
/// without the ignored ones. An ignored repository is never visited.
pub proof fn lemma_resolved_repositories(
    server: Server,
    repositories: Seq<Seq<char>>,
    ignored_repositories: Seq<Seq<char>>,
    only_scrape_forced_repos: bool,
    geoapi_servers: Option<Vec<Hostname>>,
    start: ServerScrape,
    first: ScrapeStep,
    json: RepositoriesJSON,
    post: ServerScrape,
    step: ScrapeStep,
)
    requires
        server.begins_scrape(
            repositories,
            ignored_repositories,
            only_scrape_forced_repos,
            geoapi_servers,
            start,
            first,
        ),
        start.phase == ScrapePhase::AwaitingRepositoriesJson,
        start.after_repositories_json(Ok(json), post, step),
        !is_failure(step),
    ensures
        forall|x: Seq<char>|
            #![trigger post.names@.contains(x)]
            post.names@.contains(x) <==> (repositories.contains(x) || (!only_scrape_forced_repos
                && json.advertised_names().contains(x))) && !ignored_repositories.contains(x),
        forall|x: Seq<char>|
            #![trigger post.names@.contains(x)]
            ignored_repositories.contains(x) ==> !post.names@.contains(x),
{
    assert(start.self_description_fault(json) is None);
    assert forall|x: Seq<char>|
        #![trigger post.names@.contains(x)]
        post.names@.contains(x) <==> (repositories.contains(x) || (!only_scrape_forced_repos
            && json.advertised_names().contains(x))) && !ignored_repositories.contains(x) by {
        assert(start.names@.contains(x) <==> repositories.contains(x)
            && !ignored_repositories.contains(x));
    }
}

} // verus!
