use vstd::prelude::*;
use vstd::string::*;
use crate::instance::Instance;
use crate::text::{decimal, decimal_string};

verus! {

/// How a piece of a terminal message is painted.
#[derive(Clone, Copy, Debug, PartialEq, Eq, Structural)]
pub enum Style {
    Plain,
    Blue,
    BrightBlue,
    BrightRed,
    BrightYellow,
    BrightGreen,
    BrightPurple,
    Yellow,
    ItalicBrightMagenta,
    BrightRedOnBlue,
}

/// A run of text in one style; a message is a sequence of them, newlines included.
pub struct Piece {
    pub text: String,
    pub style: Style,
}

pub open spec fn pieces(v: Seq<Piece>) -> Seq<(Seq<char>, Style)> {
    v.map_values(|p: Piece| (p.text@, p.style))
}

/// Where a build stands.
pub enum PackBuildStatus {
    Started(String),
    Failed { build_id: String, reason: String },
    Completed(Instance),
}

/// The build service's answer to a status request.
pub enum PackResponse {
    Status(PackBuildStatus),
    Success,
    Failure,
}

/// What came of asking the build service for a status.
pub enum StatusFetch {
    /// The service could not be reached; the error's text.
    ConnectionFailed(String),
    /// The answer could not be read; the error's text.
    InvalidResponse(String),
    /// The answer.
    Received(PackResponse),
}

/// The arguments of the `status` command.
pub struct StatusCommand {
    pub build_id: String,
}

/// The report for an answer from the build service about `build_id`.
pub open spec fn response_text(build_id: Seq<char>, response: PackResponse) -> Seq<(Seq<char>, Style)> {
    match response {
        PackResponse::Status(PackBuildStatus::Started(id)) => started_text(id@),
        PackResponse::Status(PackBuildStatus::Failed { build_id: b, reason }) => failed_text(b@, reason@),
        PackResponse::Status(PackBuildStatus::Completed(instance)) => completed_text(instance.build_id@),
        PackResponse::Success => no_status_text(build_id),
        PackResponse::Failure => failure_text(build_id),
    }
}

/// The report for a status request about `build_id` sent to `provider` on `port`.
pub open spec fn status_report_text(
    build_id: Seq<char>,
    provider: Seq<char>,
    port: u16,
    fetch: StatusFetch,
) -> Seq<(Seq<char>, Style)> {
    match fetch {
        StatusFetch::ConnectionFailed(e) => connect_error_text(e@, provider, decimal(port as nat)),
        StatusFetch::InvalidResponse(e) => parse_error_text(e@),
        StatusFetch::Received(response) => response_text(build_id, response),
    }
}

/// The message that `print_pack_status` shows for an answer.
pub open spec fn pack_status_text(status: PackResponse) -> Seq<(Seq<char>, Style)> {
    match status {
        PackResponse::Status(PackBuildStatus::Started(_)) => pack_started_text(),
        PackResponse::Status(PackBuildStatus::Failed { build_id, reason }) => pack_failed_text(build_id@, reason@),
        PackResponse::Status(PackBuildStatus::Completed(instance)) => pack_completed_text(instance.build_id@),
        PackResponse::Failure => pack_failure_text(),
        PackResponse::Success => pack_unexpected_text(),
    }
}

/// A report names what it is about: an answer that carries no status names
/// the build that was asked about, an answer with a status names the build it
/// reports on, and a failed connection names the provider and the port.
pub proof fn law_report_names_subject(build_id: Seq<char>, provider: Seq<char>, port: u16, fetch: StatusFetch)
    ensures
        fetch matches StatusFetch::Received(PackResponse::Success) ==> status_report_text(build_id, provider, port, fetch).contains((build_id, Style::BrightYellow)),
        fetch matches StatusFetch::Received(PackResponse::Failure) ==> status_report_text(build_id, provider, port, fetch).contains((build_id, Style::BrightYellow)),
        fetch matches StatusFetch::Received(PackResponse::Status(PackBuildStatus::Started(id))) ==> status_report_text(build_id, provider, port, fetch).contains((id@, Style::BrightBlue)),
        fetch matches StatusFetch::Received(PackResponse::Status(PackBuildStatus::Failed { build_id: b, reason })) ==> status_report_text(build_id, provider, port, fetch).contains((b@, Style::BrightBlue)),
        fetch matches StatusFetch::Received(PackResponse::Status(PackBuildStatus::Completed(i))) ==> status_report_text(build_id, provider, port, fetch).contains((i.build_id@, Style::BrightBlue)),
        fetch matches StatusFetch::ConnectionFailed(_) ==> {
            &&& status_report_text(build_id, provider, port, fetch).contains((provider, Style::BrightYellow))
            &&& status_report_text(build_id, provider, port, fetch).contains((decimal(port as nat), Style::BrightYellow))
        },
{
    let t = status_report_text(build_id, provider, port, fetch);
    match fetch {
        StatusFetch::Received(PackResponse::Success) => {
            assert(t[2] == (build_id, Style::BrightYellow));
        },
        StatusFetch::Received(PackResponse::Failure) => {
            assert(t[1] == (build_id, Style::BrightYellow));
        },
        StatusFetch::Received(PackResponse::Status(PackBuildStatus::Started(id))) => {
            assert(t[1] == (id@, Style::BrightBlue));
        },
        StatusFetch::Received(PackResponse::Status(PackBuildStatus::Failed { build_id: b, reason })) => {
            assert(t[1] == (b@, Style::BrightBlue));
        },
        StatusFetch::Received(PackResponse::Status(PackBuildStatus::Completed(i))) => {
            assert(t[1] == (i.build_id@, Style::BrightBlue));
        },
        StatusFetch::ConnectionFailed(_) => {
            assert(t[5] == (provider, Style::BrightYellow));
            assert(t[8] == (decimal(port as nat), Style::BrightYellow));
        },
        StatusFetch::InvalidResponse(_) => {},
    }
}

impl StatusCommand {
    /// Where the build service at `provider` on `port` answers for this command's build.
    pub fn status_url(&self, provider: &str, port: u16) -> (r: String)
        ensures
            r@ == "http://"@ + provider@ + ":"@ + decimal(port as nat) + "/"@ + self.build_id@ + "/get_status"@,
    {
        let mut url = "http://".to_owned();
        url.append(provider);
        url.append(":");
        let port_text = decimal_string(port as u64);
        url.append(port_text.as_str());
        url.append("/");
        url.append(self.build_id.as_str());
        url.append("/get_status");
        url
    }

    /// The line shown before the service is asked.
    pub fn status_banner(&self) -> (r: Vec<Piece>)
        ensures
            pieces(r@) == banner_text(self.build_id@),
    {
        banner_pieces(self.build_id.as_str())
    }

    /// The report shown once the service was asked for the status of this
    /// command's build at `provider` on `port`.
    pub fn status_report(&self, provider: &str, port: u16, fetch: &StatusFetch) -> (r: Vec<Piece>)
        ensures
            pieces(r@) == status_report_text(self.build_id@, provider@, port, *fetch),
    {
        match fetch {
            StatusFetch::ConnectionFailed(e) => {
                let port_text = decimal_string(port as u64);
                connect_error_pieces(e.as_str(), provider, port_text.as_str())
            },
            StatusFetch::InvalidResponse(e) => parse_error_pieces(e.as_str()),
            StatusFetch::Received(response) => match response {
                PackResponse::Status(PackBuildStatus::Started(id)) => started_pieces(id.as_str()),
                PackResponse::Status(PackBuildStatus::Failed { build_id, reason }) => failed_pieces(
                    build_id.as_str(),
                    reason.as_str(),
                ),
                PackResponse::Status(PackBuildStatus::Completed(instance)) => completed_pieces(
                    instance.build_id.as_str(),
                ),
                PackResponse::Success => no_status_pieces(self.build_id.as_str()),
                PackResponse::Failure => failure_pieces(self.build_id.as_str()),
            },
        }
    }
}

/// The message for an answer from the build service; `build_id` is the build
/// that was asked about.
pub fn print_pack_status(status: &PackResponse, build_id: &str) -> (r: Vec<Piece>)
    ensures
        pieces(r@) == pack_status_text(*status),
{
    match status {
        PackResponse::Status(PackBuildStatus::Started(_id)) => pack_started_pieces(),
        PackResponse::Status(PackBuildStatus::Failed { build_id, reason }) => pack_failed_pieces(
            build_id.as_str(),
            reason.as_str(),
        ),
        PackResponse::Status(PackBuildStatus::Completed(instance)) => pack_completed_pieces(
            instance.build_id.as_str(),
        ),
        PackResponse::Failure => pack_failure_pieces(),
        _ => pack_unexpected_pieces(),
    }
}

pub open spec fn banner_text(build_id: Seq<char>) -> Seq<(Seq<char>, Style)> {
    seq![
        ("Checking status for build ID: "@, Style::Plain),
        (build_id, Style::BrightBlue),
        ("\n"@, Style::Plain),
    ]
}

fn banner_pieces(build_id: &str) -> (r: Vec<Piece>)
    ensures
        pieces(r@) == banner_text(build_id@),
{
    let mut r: Vec<Piece> = Vec::new();
    r.push(Piece { text: "Checking status for build ID: ".to_owned(), style: Style::Plain });
    r.push(Piece { text: build_id.to_owned(), style: Style::BrightBlue });
    r.push(Piece { text: "\n".to_owned(), style: Style::Plain });
    assert(pieces(r@) =~= banner_text(build_id@));
    r
}

pub open spec fn parse_error_text(err: Seq<char>) -> Seq<(Seq<char>, Style)> {
    seq![
        ("\nError parsing response from server: "@, Style::Plain),
        (err, Style::BrightRed),
        ("\n"@, Style::Plain),
        ("This could mean the server is not running or is misconfigured.\n"@, Style::Plain),
    ]
}

fn parse_error_pieces(err: &str) -> (r: Vec<Piece>)
    ensures
        pieces(r@) == parse_error_text(err@),
{
    let mut r: Vec<Piece> = Vec::new();
    r.push(Piece { text: "\nError parsing response from server: ".to_owned(), style: Style::Plain });
    r.push(Piece { text: err.to_owned(), style: Style::BrightRed });
    r.push(Piece { text: "\n".to_owned(), style: Style::Plain });
    r.push(Piece { text: "This could mean the server is not running or is misconfigured.\n".to_owned(), style: Style::Plain });
    assert(pieces(r@) =~= parse_error_text(err@));
    r
}

pub open spec fn connect_error_text(err: Seq<char>, provider: Seq<char>, port: Seq<char>) -> Seq<(Seq<char>, Style)> {
    seq![
        ("\nError connecting to server: "@, Style::Plain),
        (err, Style::BrightRed),
        ("\n"@, Style::Plain),
        ("Please check that:\n"@, Style::Plain),
        ("1. The provider "@, Style::Plain),
        (provider, Style::BrightYellow),
        (" is running and accessible\n"@, Style::Plain),
        ("2. The port "@, Style::Plain),
        (port, Style::BrightYellow),
        (" is correct and open\n"@, Style::Plain),
        ("3. Your network connection is stable\n"@, Style::Plain),
    ]
}

fn connect_error_pieces(err: &str, provider: &str, port: &str) -> (r: Vec<Piece>)
    ensures
        pieces(r@) == connect_error_text(err@, provider@, port@),
{
    let mut r: Vec<Piece> = Vec::new();
    r.push(Piece { text: "\nError connecting to server: ".to_owned(), style: Style::Plain });
    r.push(Piece { text: err.to_owned(), style: Style::BrightRed });
    r.push(Piece { text: "\n".to_owned(), style: Style::Plain });
    r.push(Piece { text: "Please check that:\n".to_owned(), style: Style::Plain });
    r.push(Piece { text: "1. The provider ".to_owned(), style: Style::Plain });
    r.push(Piece { text: provider.to_owned(), style: Style::BrightYellow });
    r.push(Piece { text: " is running and accessible\n".to_owned(), style: Style::Plain });
    r.push(Piece { text: "2. The port ".to_owned(), style: Style::Plain });
    r.push(Piece { text: port.to_owned(), style: Style::BrightYellow });
    r.push(Piece { text: " is correct and open\n".to_owned(), style: Style::Plain });
    r.push(Piece { text: "3. Your network connection is stable\n".to_owned(), style: Style::Plain });
    assert(pieces(r@) =~= connect_error_text(err@, provider@, port@));
    r
}

pub open spec fn started_text(id: Seq<char>) -> Seq<(Seq<char>, Style)> {
    seq![
        ("\nBuild ID: "@, Style::Plain),
        (id, Style::BrightBlue),
        (" is currently in progress.\n\nStatus: "@, Style::Plain),
        ("STARTED"@, Style::Blue),
        ("\n\nPlease be patient, as builds can take several minutes depending on:\n- Size of build artifacts\n- Number of dependencies to install\n- System resources available\n\nCheck back in a few minutes for an update.\n\n"@, Style::Plain),
    ]
}

fn started_pieces(id: &str) -> (r: Vec<Piece>)
    ensures
        pieces(r@) == started_text(id@),
{
    let mut r: Vec<Piece> = Vec::new();
    r.push(Piece { text: "\nBuild ID: ".to_owned(), style: Style::Plain });
    r.push(Piece { text: id.to_owned(), style: Style::BrightBlue });
    r.push(Piece { text: " is currently in progress.\n\nStatus: ".to_owned(), style: Style::Plain });
    r.push(Piece { text: "STARTED".to_owned(), style: Style::Blue });
    r.push(Piece { text: "\n\nPlease be patient, as builds can take several minutes depending on:\n- Size of build artifacts\n- Number of dependencies to install\n- System resources available\n\nCheck back in a few minutes for an update.\n\n".to_owned(), style: Style::Plain });
    assert(pieces(r@) =~= started_text(id@));
    r
}

pub open spec fn failed_text(build_id: Seq<char>, reason: Seq<char>) -> Seq<(Seq<char>, Style)> {
    seq![
        ("\nBuild ID: "@, Style::Plain),
        (build_id, Style::BrightBlue),
        (" has failed.\n\nStatus: "@, Style::Plain),
        ("FAILED"@, Style::BrightRed),
        ("\nReason: "@, Style::Plain),
        (reason, Style::BrightYellow),
        ("\n\nPlease check your Formfile and build configuration.\n\n"@, Style::Plain),
    ]
}

fn failed_pieces(build_id: &str, reason: &str) -> (r: Vec<Piece>)
    ensures
        pieces(r@) == failed_text(build_id@, reason@),
{
    let mut r: Vec<Piece> = Vec::new();
    r.push(Piece { text: "\nBuild ID: ".to_owned(), style: Style::Plain });
    r.push(Piece { text: build_id.to_owned(), style: Style::BrightBlue });
    r.push(Piece { text: " has failed.\n\nStatus: ".to_owned(), style: Style::Plain });
    r.push(Piece { text: "FAILED".to_owned(), style: Style::BrightRed });
    r.push(Piece { text: "\nReason: ".to_owned(), style: Style::Plain });
    r.push(Piece { text: reason.to_owned(), style: Style::BrightYellow });
    r.push(Piece { text: "\n\nPlease check your Formfile and build configuration.\n\n".to_owned(), style: Style::Plain });
    assert(pieces(r@) =~= failed_text(build_id@, reason@));
    r
}

pub open spec fn completed_text(build_id: Seq<char>) -> Seq<(Seq<char>, Style)> {
    seq![
        ("\nBuild ID: "@, Style::Plain),
        (build_id, Style::BrightBlue),
        (" has completed successfully!\n\nStatus: "@, Style::Plain),
        ("COMPLETED"@, Style::BrightGreen),
        ("\n\nYou can now deploy this build by running:\n"@, Style::Plain),
        ("form pack ship"@, Style::BrightYellow),
        ("\n\n"@, Style::Plain),
    ]
}

fn completed_pieces(build_id: &str) -> (r: Vec<Piece>)
    ensures
        pieces(r@) == completed_text(build_id@),
{
    let mut r: Vec<Piece> = Vec::new();
    r.push(Piece { text: "\nBuild ID: ".to_owned(), style: Style::Plain });
    r.push(Piece { text: build_id.to_owned(), style: Style::BrightBlue });
    r.push(Piece { text: " has completed successfully!\n\nStatus: ".to_owned(), style: Style::Plain });
    r.push(Piece { text: "COMPLETED".to_owned(), style: Style::BrightGreen });
    r.push(Piece { text: "\n\nYou can now deploy this build by running:\n".to_owned(), style: Style::Plain });
    r.push(Piece { text: "form pack ship".to_owned(), style: Style::BrightYellow });
    r.push(Piece { text: "\n\n".to_owned(), style: Style::Plain });
    assert(pieces(r@) =~= completed_text(build_id@));
    r
}

pub open spec fn no_status_text(build_id: Seq<char>) -> Seq<(Seq<char>, Style)> {
    seq![
        ("\nBuild status check successful, but no status information is available.\n"@, Style::Plain),
        ("This usually means the build ID "@, Style::Plain),
        (build_id, Style::BrightYellow),
        (" doesn't exist.\n"@, Style::Plain),
    ]
}

fn no_status_pieces(build_id: &str) -> (r: Vec<Piece>)
    ensures
        pieces(r@) == no_status_text(build_id@),
{
    let mut r: Vec<Piece> = Vec::new();
    r.push(Piece { text: "\nBuild status check successful, but no status information is available.\n".to_owned(), style: Style::Plain });
    r.push(Piece { text: "This usually means the build ID ".to_owned(), style: Style::Plain });
    r.push(Piece { text: build_id.to_owned(), style: Style::BrightYellow });
    r.push(Piece { text: " doesn't exist.\n".to_owned(), style: Style::Plain });
    assert(pieces(r@) =~= no_status_text(build_id@));
    r
}

pub open spec fn failure_text(build_id: Seq<char>) -> Seq<(Seq<char>, Style)> {
    seq![
        ("\nFailed to get build status for ID: "@, Style::Plain),
        (build_id, Style::BrightYellow),
        ("\n"@, Style::Plain),
        ("This could mean:\n"@, Style::Plain),
        ("1. The build ID doesn't exist\n"@, Style::Plain),
        ("2. The build status has expired from the queue\n"@, Style::Plain),
        ("3. There was an error processing the status request\n"@, Style::Plain),
    ]
}

fn failure_pieces(build_id: &str) -> (r: Vec<Piece>)
    ensures
        pieces(r@) == failure_text(build_id@),
{
    let mut r: Vec<Piece> = Vec::new();
    r.push(Piece { text: "\nFailed to get build status for ID: ".to_owned(), style: Style::Plain });
    r.push(Piece { text: build_id.to_owned(), style: Style::BrightYellow });
    r.push(Piece { text: "\n".to_owned(), style: Style::Plain });
    r.push(Piece { text: "This could mean:\n".to_owned(), style: Style::Plain });
    r.push(Piece { text: "1. The build ID doesn't exist\n".to_owned(), style: Style::Plain });
    r.push(Piece { text: "2. The build status has expired from the queue\n".to_owned(), style: Style::Plain });
    r.push(Piece { text: "3. There was an error processing the status request\n".to_owned(), style: Style::Plain });
    assert(pieces(r@) =~= failure_text(build_id@));
    r
}

pub open spec fn pack_started_text() -> Seq<(Seq<char>, Style)> {
    seq![
        ("\nYour build has "@, Style::Plain),
        ("Started"@, Style::Blue),
        (" but has not yet "@, Style::Plain),
        ("Completed"@, Style::Yellow),
        (".\n\nPlease be patient, as builds can take as long as "@, Style::Plain),
        ("5 minutes"@, Style::BrightPurple),
        (", or possibly even\nlonger depending on the size and number build artifacts and/or number of arguments in your\n"@, Style::Plain),
        ("Formfile"@, Style::Blue),
        (" or options selected on the GUI. This is particularly true if you included a significant number \nof system dependencies or application level dependencies to be installed, or included large \nsystem dependencies to be installed.\n\nCheck back in a couple more minutes to see an update of the status.\n\nIf your status is still `"@, Style::Plain),
        ("Started"@, Style::Yellow),
        ("` after "@, Style::Plain),
        ("10 minutes"@, Style::BrightRed),
        (" please consider taking one of the following\nactions:\n\n    1. Join our discord at "@, Style::Plain),
        ("discord.gg/formation"@, Style::Blue),
        (" and go to the "@, Style::Plain),
        ("chewing-glass"@, Style::BrightYellow),
        (" channel and paste this response\n    2. Submitting an "@, Style::Plain),
        ("Issue"@, Style::Yellow),
        (" on our project github at "@, Style::Plain),
        ("http://github.com/formthefog/formation.git"@, Style::Blue),
        (" \n    3. Sending us a direct message on X at "@, Style::Plain),
        ("@formthefog"@, Style::Blue),
        ("\n\nOne of our core contributors will be glad to help you out.\n\n"@, Style::Plain),
    ]
}

fn pack_started_pieces() -> (r: Vec<Piece>)
    ensures
        pieces(r@) == pack_started_text(),
{
    let mut r: Vec<Piece> = Vec::new();
    r.push(Piece { text: "\nYour build has ".to_owned(), style: Style::Plain });
    r.push(Piece { text: "Started".to_owned(), style: Style::Blue });
    r.push(Piece { text: " but has not yet ".to_owned(), style: Style::Plain });
    r.push(Piece { text: "Completed".to_owned(), style: Style::Yellow });
    r.push(Piece { text: ".\n\nPlease be patient, as builds can take as long as ".to_owned(), style: Style::Plain });
    r.push(Piece { text: "5 minutes".to_owned(), style: Style::BrightPurple });
    r.push(Piece { text: ", or possibly even\nlonger depending on the size and number build artifacts and/or number of arguments in your\n".to_owned(), style: Style::Plain });
    r.push(Piece { text: "Formfile".to_owned(), style: Style::Blue });
    r.push(Piece { text: " or options selected on the GUI. This is particularly true if you included a significant number \nof system dependencies or application level dependencies to be installed, or included large \nsystem dependencies to be installed.\n\nCheck back in a couple more minutes to see an update of the status.\n\nIf your status is still `".to_owned(), style: Style::Plain });
    r.push(Piece { text: "Started".to_owned(), style: Style::Yellow });
    r.push(Piece { text: "` after ".to_owned(), style: Style::Plain });
    r.push(Piece { text: "10 minutes".to_owned(), style: Style::BrightRed });
    r.push(Piece { text: " please consider taking one of the following\nactions:\n\n    1. Join our discord at ".to_owned(), style: Style::Plain });
    r.push(Piece { text: "discord.gg/formation".to_owned(), style: Style::Blue });
    r.push(Piece { text: " and go to the ".to_owned(), style: Style::Plain });
    r.push(Piece { text: "chewing-glass".to_owned(), style: Style::BrightYellow });
    r.push(Piece { text: " channel and paste this response\n    2. Submitting an ".to_owned(), style: Style::Plain });
    r.push(Piece { text: "Issue".to_owned(), style: Style::Yellow });
    r.push(Piece { text: " on our project github at ".to_owned(), style: Style::Plain });
    r.push(Piece { text: "http://github.com/formthefog/formation.git".to_owned(), style: Style::Blue });
    r.push(Piece { text: " \n    3. Sending us a direct message on X at ".to_owned(), style: Style::Plain });
    r.push(Piece { text: "@formthefog".to_owned(), style: Style::Blue });
    r.push(Piece { text: "\n\nOne of our core contributors will be glad to help you out.\n\n".to_owned(), style: Style::Plain });
    assert(pieces(r@) =~= pack_started_text());
    r
}

pub open spec fn pack_failed_text(build_id: Seq<char>, reason: Seq<char>) -> Seq<(Seq<char>, Style)> {
    seq![
        ("\nWe regret to inform you that your build with build id "@, Style::Plain),
        (build_id, Style::BrightBlue),
        (" has "@, Style::Plain),
        ("Failed"@, Style::BrightRed),
        (".\n\nThe reason for the falure was: "@, Style::Plain),
        (reason, Style::ItalicBrightMagenta),
        ("\n\nIf the reason for the failure is bewildering or does not make sense to you, please\nconsider taking one of the following actions:\n\n    1. Join our discord at "@, Style::Plain),
        ("discord.gg/formation"@, Style::Blue),
        (" and go to the "@, Style::Plain),
        ("chewing-glass"@, Style::BrightYellow),
        (" channel and paste this response\n    2. Submitting an "@, Style::Plain),
        ("Issue"@, Style::Yellow),
        (" on our project github at "@, Style::Plain),
        ("http://github.com/formthefog/formation.git"@, Style::Blue),
        (" \n    3. Sending us a direct message on X at "@, Style::Plain),
        ("@formthefog"@, Style::Blue),
        ("\n\nOne of our core contributors will be glad to help you out.\n\n"@, Style::Plain),
    ]
}

fn pack_failed_pieces(build_id: &str, reason: &str) -> (r: Vec<Piece>)
    ensures
        pieces(r@) == pack_failed_text(build_id@, reason@),
{
    let mut r: Vec<Piece> = Vec::new();
    r.push(Piece { text: "\nWe regret to inform you that your build with build id ".to_owned(), style: Style::Plain });
    r.push(Piece { text: build_id.to_owned(), style: Style::BrightBlue });
    r.push(Piece { text: " has ".to_owned(), style: Style::Plain });
    r.push(Piece { text: "Failed".to_owned(), style: Style::BrightRed });
    r.push(Piece { text: ".\n\nThe reason for the falure was: ".to_owned(), style: Style::Plain });
    r.push(Piece { text: reason.to_owned(), style: Style::ItalicBrightMagenta });
    r.push(Piece { text: "\n\nIf the reason for the failure is bewildering or does not make sense to you, please\nconsider taking one of the following actions:\n\n    1. Join our discord at ".to_owned(), style: Style::Plain });
    r.push(Piece { text: "discord.gg/formation".to_owned(), style: Style::Blue });
    r.push(Piece { text: " and go to the ".to_owned(), style: Style::Plain });
    r.push(Piece { text: "chewing-glass".to_owned(), style: Style::BrightYellow });
    r.push(Piece { text: " channel and paste this response\n    2. Submitting an ".to_owned(), style: Style::Plain });
    r.push(Piece { text: "Issue".to_owned(), style: Style::Yellow });
    r.push(Piece { text: " on our project github at ".to_owned(), style: Style::Plain });
    r.push(Piece { text: "http://github.com/formthefog/formation.git".to_owned(), style: Style::Blue });
    r.push(Piece { text: " \n    3. Sending us a direct message on X at ".to_owned(), style: Style::Plain });
    r.push(Piece { text: "@formthefog".to_owned(), style: Style::Blue });
    r.push(Piece { text: "\n\nOne of our core contributors will be glad to help you out.\n\n".to_owned(), style: Style::Plain });
    assert(pieces(r@) =~= pack_failed_text(build_id@, reason@));
    r
}

pub open spec fn pack_completed_text(build_id: Seq<char>) -> Seq<(Seq<char>, Style)> {
    seq![
        ("\nWe are overjoyed to inform you that your build with build id "@, Style::Plain),
        (build_id, Style::BrightBlue),
        (" has "@, Style::Plain),
        ("Completed"@, Style::BrightRed),
        (".\n\nYou can now `"@, Style::Plain),
        ("ship"@, Style::Blue),
        ("` your build by running:\n\n```\n"@, Style::Plain),
        ("form pack [OPTIONS] ship"@, Style::BrightYellow),
        ("\n```\n\nIf you run into any issues during the `"@, Style::Plain),
        ("ship"@, Style::Blue),
        ("` phase of deployment, please consider\ntaking one of the following actions:\n\n    1. Join our discord at "@, Style::Plain),
        ("discord.gg/formation"@, Style::Blue),
        (" and go to the "@, Style::Plain),
        ("chewing-glass"@, Style::BrightYellow),
        (" channel and paste this response\n    2. Submitting an "@, Style::Plain),
        ("Issue"@, Style::Yellow),
        (" on our project github at "@, Style::Plain),
        ("http://github.com/formthefog/formation.git"@, Style::Blue),
        (" \n    3. Sending us a direct message on X at "@, Style::Plain),
        ("@formthefog"@, Style::Blue),
        ("\n\nOne of our core contributors will be glad to help you out.\n\n"@, Style::Plain),
    ]
}

fn pack_completed_pieces(build_id: &str) -> (r: Vec<Piece>)
    ensures
        pieces(r@) == pack_completed_text(build_id@),
{
    let mut r: Vec<Piece> = Vec::new();
    r.push(Piece { text: "\nWe are overjoyed to inform you that your build with build id ".to_owned(), style: Style::Plain });
    r.push(Piece { text: build_id.to_owned(), style: Style::BrightBlue });
    r.push(Piece { text: " has ".to_owned(), style: Style::Plain });
    r.push(Piece { text: "Completed".to_owned(), style: Style::BrightRed });
    r.push(Piece { text: ".\n\nYou can now `".to_owned(), style: Style::Plain });
    r.push(Piece { text: "ship".to_owned(), style: Style::Blue });
    r.push(Piece { text: "` your build by running:\n\n```\n".to_owned(), style: Style::Plain });
    r.push(Piece { text: "form pack [OPTIONS] ship".to_owned(), style: Style::BrightYellow });
    r.push(Piece { text: "\n```\n\nIf you run into any issues during the `".to_owned(), style: Style::Plain });
    r.push(Piece { text: "ship".to_owned(), style: Style::Blue });
    r.push(Piece { text: "` phase of deployment, please consider\ntaking one of the following actions:\n\n    1. Join our discord at ".to_owned(), style: Style::Plain });
    r.push(Piece { text: "discord.gg/formation".to_owned(), style: Style::Blue });
    r.push(Piece { text: " and go to the ".to_owned(), style: Style::Plain });
    r.push(Piece { text: "chewing-glass".to_owned(), style: Style::BrightYellow });
    r.push(Piece { text: " channel and paste this response\n    2. Submitting an ".to_owned(), style: Style::Plain });
    r.push(Piece { text: "Issue".to_owned(), style: Style::Yellow });
    r.push(Piece { text: " on our project github at ".to_owned(), style: Style::Plain });
    r.push(Piece { text: "http://github.com/formthefog/formation.git".to_owned(), style: Style::Blue });
    r.push(Piece { text: " \n    3. Sending us a direct message on X at ".to_owned(), style: Style::Plain });
    r.push(Piece { text: "@formthefog".to_owned(), style: Style::Blue });
    r.push(Piece { text: "\n\nOne of our core contributors will be glad to help you out.\n\n".to_owned(), style: Style::Plain });
    assert(pieces(r@) =~= pack_completed_text(build_id@));
    r
}

pub open spec fn pack_failure_text() -> Seq<(Seq<char>, Style)> {
    seq![
        ("\nSomething went "@, Style::Plain),
        ("terribly"@, Style::BrightRedOnBlue),
        (" wrong. The response received was "@, Style::Plain),
        ("Failure"@, Style::Plain),
        (" which is an invalid response \nto the `"@, Style::Plain),
        ("form pack [OPTIONS] build"@, Style::BrightYellow),
        ("` command.\n\nPlease consider doing one of the following: \n\n    1. Join our discord at "@, Style::Plain),
        ("discord.gg/formation"@, Style::Blue),
        (" and go to the "@, Style::Plain),
        ("chewing-glass"@, Style::Blue),
        (" channel and paste this response\n    2. Submitting an "@, Style::Plain),
        ("issue"@, Style::BrightYellow),
        (" on our project github at "@, Style::Plain),
        ("http://github.com/formthefog/formation.git"@, Style::Blue),
        (" \n    3. Sending us a direct message on X at "@, Style::Plain),
        ("@formthefog"@, Style::Blue),
        ("\n\nSomeone from our core team will gladly help you out.\n\n"@, Style::Plain),
    ]
}

fn pack_failure_pieces() -> (r: Vec<Piece>)
    ensures
        pieces(r@) == pack_failure_text(),
{
    let mut r: Vec<Piece> = Vec::new();
    r.push(Piece { text: "\nSomething went ".to_owned(), style: Style::Plain });
    r.push(Piece { text: "terribly".to_owned(), style: Style::BrightRedOnBlue });
    r.push(Piece { text: " wrong. The response received was ".to_owned(), style: Style::Plain });
    r.push(Piece { text: "Failure".to_owned(), style: Style::Plain });
    r.push(Piece { text: " which is an invalid response \nto the `".to_owned(), style: Style::Plain });
    r.push(Piece { text: "form pack [OPTIONS] build".to_owned(), style: Style::BrightYellow });
    r.push(Piece { text: "` command.\n\nPlease consider doing one of the following: \n\n    1. Join our discord at ".to_owned(), style: Style::Plain });
    r.push(Piece { text: "discord.gg/formation".to_owned(), style: Style::Blue });
    r.push(Piece { text: " and go to the ".to_owned(), style: Style::Plain });
    r.push(Piece { text: "chewing-glass".to_owned(), style: Style::Blue });
    r.push(Piece { text: " channel and paste this response\n    2. Submitting an ".to_owned(), style: Style::Plain });
    r.push(Piece { text: "issue".to_owned(), style: Style::BrightYellow });
    r.push(Piece { text: " on our project github at ".to_owned(), style: Style::Plain });
    r.push(Piece { text: "http://github.com/formthefog/formation.git".to_owned(), style: Style::Blue });
    r.push(Piece { text: " \n    3. Sending us a direct message on X at ".to_owned(), style: Style::Plain });
    r.push(Piece { text: "@formthefog".to_owned(), style: Style::Blue });
    r.push(Piece { text: "\n\nSomeone from our core team will gladly help you out.\n\n".to_owned(), style: Style::Plain });
    assert(pieces(r@) =~= pack_failure_text());
    r
}

pub open spec fn pack_unexpected_text() -> Seq<(Seq<char>, Style)> {
    seq![
        ("\nSomething went "@, Style::Plain),
        ("terribly"@, Style::BrightRedOnBlue),
        (" wrong. The response received was "@, Style::Plain),
        ("Success"@, Style::Plain),
        (" which is an invalid response \nto the `"@, Style::Plain),
        ("form pack [OPTIONS] build"@, Style::BrightYellow),
        ("` command.\n\nPlease consider doing one of the following: \n\n    1. Join our discord at "@, Style::Plain),
        ("discord.gg/formation"@, Style::Blue),
        (" and go to the "@, Style::Plain),
        ("chewing-glass"@, Style::Blue),
        (" channel and paste this response\n    2. Submitting an "@, Style::Plain),
        ("issue"@, Style::BrightYellow),
        (" on our project github at "@, Style::Plain),
        ("http://github.com/formthefog/formation.git"@, Style::Blue),
        (" \n    3. Sending us a direct message on X at "@, Style::Plain),
        ("@formthefog"@, Style::Blue),
        ("\n\nSomeone from our core team will gladly help you out.\n\n"@, Style::Plain),
    ]
}

fn pack_unexpected_pieces() -> (r: Vec<Piece>)
    ensures
        pieces(r@) == pack_unexpected_text(),
{
    let mut r: Vec<Piece> = Vec::new();
    r.push(Piece { text: "\nSomething went ".to_owned(), style: Style::Plain });
    r.push(Piece { text: "terribly".to_owned(), style: Style::BrightRedOnBlue });
    r.push(Piece { text: " wrong. The response received was ".to_owned(), style: Style::Plain });
    r.push(Piece { text: "Success".to_owned(), style: Style::Plain });
    r.push(Piece { text: " which is an invalid response \nto the `".to_owned(), style: Style::Plain });
    r.push(Piece { text: "form pack [OPTIONS] build".to_owned(), style: Style::BrightYellow });
    r.push(Piece { text: "` command.\n\nPlease consider doing one of the following: \n\n    1. Join our discord at ".to_owned(), style: Style::Plain });
    r.push(Piece { text: "discord.gg/formation".to_owned(), style: Style::Blue });
    r.push(Piece { text: " and go to the ".to_owned(), style: Style::Plain });
    r.push(Piece { text: "chewing-glass".to_owned(), style: Style::Blue });
    r.push(Piece { text: " channel and paste this response\n    2. Submitting an ".to_owned(), style: Style::Plain });
    r.push(Piece { text: "issue".to_owned(), style: Style::BrightYellow });
    r.push(Piece { text: " on our project github at ".to_owned(), style: Style::Plain });
    r.push(Piece { text: "http://github.com/formthefog/formation.git".to_owned(), style: Style::Blue });
    r.push(Piece { text: " \n    3. Sending us a direct message on X at ".to_owned(), style: Style::Plain });
    r.push(Piece { text: "@formthefog".to_owned(), style: Style::Blue });
    r.push(Piece { text: "\n\nSomeone from our core team will gladly help you out.\n\n".to_owned(), style: Style::Plain });
    assert(pieces(r@) =~= pack_unexpected_text());
    r
}
} // verus!
