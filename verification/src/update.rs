use vstd::prelude::*;
use vstd::string::StringExecFns;

use crate::text::{
    chars_of, decimal_spec, exe_asset_spec, lemma_decimal, lemma_json_reads_quoted_value, lemma_ver_tuple_reads_version, version_text, find_exe_asset, json_string, json_string_spec, string_of,
    ver_tuple, ver_tuple_spec,
};

verus! {

/// Whether version `a` is not newer than version `b`, comparing
/// (major, minor, patch) in that order.
pub open spec fn version_le(a: (u32, u32, u32), b: (u32, u32, u32)) -> bool {
    a.0 < b.0 || (a.0 == b.0 && (a.1 < b.1 || (a.1 == b.1 && a.2 <= b.2)))
}

/// Compares two version triples.
pub fn version_not_newer(a: (u32, u32, u32), b: (u32, u32, u32)) -> (r: bool)
    ensures
        r == version_le(a, b),
{
    a.0 < b.0 || (a.0 == b.0 && (a.1 < b.1 || (a.1 == b.1 && a.2 <= b.2)))
}

/// What a release description says about updating from the running version.
pub enum UpdateCheck {
    /// No release tag could be read.
    Unreadable,
    /// The latest release is not newer than the running version.
    UpToDate { latest: String },
    /// A newer release exists but carries no installer.
    NoInstaller { latest: String },
    /// A newer release exists, with this installer.
    Available { latest: String, installer: String },
}

/// The release tag in a release description, empty when there is none.
pub open spec fn latest_tag_spec(body: Seq<char>) -> Seq<char> {
    match json_string_spec(body, "tag_name"@) {
        Some(t) => t,
        None => Seq::empty(),
    }
}

/// What a check found, with its texts as character sequences.
pub enum CheckView {
    Unreadable,
    UpToDate(Seq<char>),
    NoInstaller(Seq<char>),
    Available(Seq<char>, Seq<char>),
}

impl View for UpdateCheck {
    type V = CheckView;

    open spec fn view(&self) -> CheckView {
        match self {
            UpdateCheck::Unreadable => CheckView::Unreadable,
            UpdateCheck::UpToDate { latest } => CheckView::UpToDate(latest@),
            UpdateCheck::NoInstaller { latest } => CheckView::NoInstaller(latest@),
            UpdateCheck::Available { latest, installer } => CheckView::Available(
                latest@,
                installer@,
            ),
        }
    }
}

/// The outcome of checking a release description `body` against the running
/// version `current`: the tag must be readable and non-empty, newer than the
/// running version, and the release must carry an installer.
pub open spec fn check_view_spec(body: Seq<char>, current: Seq<char>) -> CheckView {
    let latest = latest_tag_spec(body);
    if latest.len() == 0 {
        CheckView::Unreadable
    } else if version_le(ver_tuple_spec(latest), ver_tuple_spec(current)) {
        CheckView::UpToDate(latest)
    } else {
        match exe_asset_spec(body) {
            None => CheckView::NoInstaller(latest),
            Some(u) => CheckView::Available(latest, u),
        }
    }
}

/// Decides, from the release description of the latest release, whether an
/// update is available for the running version `current`.
pub fn update_check(body: &str, current: &str) -> (r: UpdateCheck)
    ensures
        r@ == check_view_spec(body@, current@),
{
    let latest = match json_string(body, "tag_name") {
        Some(t) => t,
        None => String::new(),
    };
    assert(latest@ == latest_tag_spec(body@));
    let n = chars_of(latest.as_str()).len();
    if n == 0 {
        return UpdateCheck::Unreadable;
    }
    if version_not_newer(ver_tuple(latest.as_str()), ver_tuple(current)) {
        return UpdateCheck::UpToDate { latest };
    }
    match find_exe_asset(body) {
        None => UpdateCheck::NoInstaller { latest },
        Some(installer) => UpdateCheck::Available { latest, installer },
    }
}

fn push_decimal(out: &mut Vec<char>, n: u64)
    ensures
        final(out)@ == old(out)@ + decimal_spec(n),
    decreases n,
{
    if n >= 10 {
        push_decimal(out, n / 10);
    }
    let d = (n % 10) as u32;
    let c = if d == 0 {
        '0'
    } else if d == 1 {
        '1'
    } else if d == 2 {
        '2'
    } else if d == 3 {
        '3'
    } else if d == 4 {
        '4'
    } else if d == 5 {
        '5'
    } else if d == 6 {
        '6'
    } else if d == 7 {
        '7'
    } else if d == 8 {
        '8'
    } else {
        '9'
    };
    assert(c == ('0' as u32 + d) as char);
    out.push(c);
}

/// The releases API address of the latest release. `nonce` (the current time)
/// is appended so no cache along the way answers with an old release.
pub open spec fn release_api_url_spec(nonce: u64) -> Seq<char> {
    "https://api.github.com/repos/gabrielchaves6/keyflag/releases/latest?_="@ + decimal_spec(nonce)
}

/// Builds the releases API address for a check made at time `nonce`.
pub fn release_api_url(nonce: u64) -> (url: String)
    ensures
        url@ == release_api_url_spec(nonce),
{
    let mut digits: Vec<char> = Vec::new();
    push_decimal(&mut digits, nonce);
    assert(digits@ == decimal_spec(nonce));
    let tail = string_of(&digits);
    let mut url = String::from_str(
        "https://api.github.com/repos/gabrielchaves6/keyflag/releases/latest?_=",
    );
    url.append(tail.as_str());
    url
}

/// File name, in the temporary directory, the release description is saved to.
pub fn release_file_name() -> (name: &'static str)
    ensures
        name@ == "keyflag_release.json"@,
{
    "keyflag_release.json"
}

/// File name, in the temporary directory, the installer is saved to.
pub fn installer_file_name() -> (name: &'static str)
    ensures
        name@ == "KeyFlag-Setup.exe"@,
{
    "KeyFlag-Setup.exe"
}

/// Arguments the installer is run with: silent, no message boxes, no restart.
pub fn installer_arguments() -> (args: &'static str)
    ensures
        args@ == "/VERYSILENT /SUPPRESSMSGBOXES /NORESTART"@,
{
    "/VERYSILENT /SUPPRESSMSGBOXES /NORESTART"
}

/// The project page the About window links to.
pub fn about_url() -> (url: &'static str)
    ensures
        url@ == "https://github.com/gabrielchaves6/keyflag"@,
{
    "https://github.com/gabrielchaves6/keyflag"
}

/// The texts of a message dialog; an empty `secondary` means a single
/// (OK-style) button.
pub struct DialogText {
    pub heading: String,
    pub body: String,
    pub primary: String,
    pub secondary: String,
}

/// The texts of a dialog as character sequences.
pub struct DialogView {
    pub heading: Seq<char>,
    pub body: Seq<char>,
    pub primary: Seq<char>,
    pub secondary: Seq<char>,
}

impl View for DialogText {
    type V = DialogView;

    open spec fn view(&self) -> DialogView {
        DialogView {
            heading: self.heading@,
            body: self.body@,
            primary: self.primary@,
            secondary: self.secondary@,
        }
    }
}

fn dialog(heading: &str, body: String, primary: &str, secondary: &str) -> (d: DialogText)
    ensures
        d@ == (DialogView { heading: heading@, body: body@, primary: primary@, secondary: secondary@ }),
{
    DialogText {
        heading: String::from_str(heading),
        body,
        primary: String::from_str(primary),
        secondary: String::from_str(secondary),
    }
}

/// The dialog shown when the releases API could not be reached.
pub fn offline_dialog() -> (d: DialogText)
    ensures
        d@ == offline_view(),
{
    dialog(
        "Sem conexão",
        String::from_str(
            "Não foi possível verificar atualizações. Verifique sua conexão com a internet e tente novamente.",
        ),
        "OK",
        "",
    )
}

/// The dialog shown when the installer could not be downloaded.
pub fn download_failed_dialog() -> (d: DialogText)
    ensures
        d@ == download_failed_view(),
{
    dialog(
        "Falha no download",
        String::from_str("Não foi possível baixar o instalador. Tente novamente mais tarde."),
        "OK",
        "",
    )
}

/// The dialog shown when the releases API could not be reached.
pub open spec fn offline_view() -> DialogView {
    DialogView {
        heading: "Sem conexão"@,
        body: "Não foi possível verificar atualizações. Verifique sua conexão com a internet e tente novamente."@,
        primary: "OK"@,
        secondary: ""@,
    }
}

/// The dialog shown when the installer could not be downloaded.
pub open spec fn download_failed_view() -> DialogView {
    DialogView {
        heading: "Falha no download"@,
        body: "Não foi possível baixar o instalador. Tente novamente mais tarde."@,
        primary: "OK"@,
        secondary: ""@,
    }
}

/// The single-button report of a check that found nothing to install:
/// unreadable tag, already up to date, or a release without installer;
/// `None` when an update is available (that case asks instead).
pub open spec fn report_view(check: CheckView) -> Option<DialogView> {
    match check {
        CheckView::Unreadable => Some(
            DialogView {
                heading: "Não foi possível verificar"@,
                body: "Não foi possível ler a versão mais recente do servidor."@,
                primary: "OK"@,
                secondary: ""@,
            },
        ),
        CheckView::UpToDate(latest) => Some(
            DialogView {
                heading: "Tudo atualizado"@,
                body: "Você já está na versão mais recente ("@ + latest + ")."@,
                primary: "OK"@,
                secondary: ""@,
            },
        ),
        CheckView::NoInstaller(latest) => Some(
            DialogView {
                heading: "Atualização disponível"@,
                body: "A versão "@ + latest
                    + " está disponível, mas o instalador não foi encontrado no release."@,
                primary: "OK"@,
                secondary: ""@,
            },
        ),
        CheckView::Available(_, _) => None,
    }
}

/// The question asking whether to install release `latest` over the running
/// version `current`.
pub open spec fn prompt_view(latest: Seq<char>, current: Seq<char>) -> DialogView {
    DialogView {
        heading: "Atualização disponível"@,
        body: "A versão "@ + latest + " está disponível (você tem v"@ + current
            + ").\n\nAtualizar agora? O KeyFlag será reiniciado automaticamente — sem assistente de instalação."@,
        primary: "Atualizar agora"@,
        secondary: "Depois"@,
    }
}

/// The dialog reporting the outcome of a check, unless it found an update.
pub fn update_report(check: &UpdateCheck) -> (r: Option<DialogText>)
    ensures
        match r {
            Some(d) => report_view(check@) == Some(d@),
            None => report_view(check@) == None::<DialogView>,
        },
{
    match check {
        UpdateCheck::Unreadable => Some(
            dialog(
                "Não foi possível verificar",
                String::from_str("Não foi possível ler a versão mais recente do servidor."),
                "OK",
                "",
            ),
        ),
        UpdateCheck::UpToDate { latest } => {
            let mut body = String::from_str("Você já está na versão mais recente (");
            body.append(latest.as_str());
            body.append(").");
            Some(dialog("Tudo atualizado", body, "OK", ""))
        },
        UpdateCheck::NoInstaller { latest } => {
            let mut body = String::from_str("A versão ");
            body.append(latest.as_str());
            body.append(" está disponível, mas o instalador não foi encontrado no release.");
            Some(dialog("Atualização disponível", body, "OK", ""))
        },
        UpdateCheck::Available { .. } => None,
    }
}

/// The two-button question asking whether to install release `latest` over
/// the running version `current`.
pub fn update_prompt(latest: &str, current: &str) -> (d: DialogText)
    ensures
        d@ == prompt_view(latest@, current@),
{
    let mut body = String::from_str("A versão ");
    body.append(latest);
    body.append(" está disponível (você tem v");
    body.append(current);
    body.append(
        ").\n\nAtualizar agora? O KeyFlag será reiniciado automaticamente — sem assistente de instalação.",
    );
    dialog("Atualização disponível", body, "Atualizar agora", "Depois")
}

/// An update is offered only for a release strictly newer than the running
/// version, and only when it carries an installer.
pub proof fn lemma_update_offered_only_when_newer(body: Seq<char>, current: Seq<char>)
    ensures
        check_view_spec(body, current) is Available ==> {
            &&& latest_tag_spec(body).len() > 0
            &&& !version_le(ver_tuple_spec(latest_tag_spec(body)), ver_tuple_spec(current))
            &&& exe_asset_spec(body) is Some
        },
{
}

/// Comparing two versions written "a.b.c" compares their numbers: the major
/// number first, then the minor, then the patch.
pub proof fn lemma_version_order_follows_numbers(a: u32, b: u32, c: u32, a2: u32, b2: u32, c2: u32)
    ensures
        version_le(ver_tuple_spec(version_text(a, b, c)), ver_tuple_spec(version_text(a2, b2, c2)))
            <==> (a < a2 || (a == a2 && (b < b2 || (b == b2 && c <= c2)))),
{
    let e = Seq::<char>::empty();
    lemma_ver_tuple_reads_version(a, b, c, e, false, e, e);
    lemma_ver_tuple_reads_version(a2, b2, c2, e, false, e, e);
    assert(e + (e + version_text(a, b, c) + e) + e =~= version_text(a, b, c));
    assert(e + (e + version_text(a2, b2, c2) + e) + e =~= version_text(a2, b2, c2));
}

/// A release whose tag reads as the running version is never offered as an
/// update: a readable tag equal to the running version means "up to date".
pub proof fn lemma_same_version_is_up_to_date(body: Seq<char>)
    requires
        latest_tag_spec(body).len() > 0,
    ensures
        check_view_spec(body, latest_tag_spec(body)) is UpToDate,
{
}

/// The outcome of a check follows the version numbers: for a release whose
/// tag is "a.b.c" or "va.b.c", checked from the running version "a2.b2.c2",
/// with an installer `u`, the update is offered exactly when the release is
/// numerically newer (major, then minor, then patch), and otherwise the
/// running version is reported up to date.
pub proof fn lemma_check_follows_version_numbers(
    body: Seq<char>,
    a: u32,
    b: u32,
    c: u32,
    with_v: bool,
    a2: u32,
    b2: u32,
    c2: u32,
    u: Seq<char>,
)
    requires
        latest_tag_spec(body) == (if with_v {
            seq!['v']
        } else {
            Seq::empty()
        }) + version_text(a, b, c),
        exe_asset_spec(body) == Some(u),
    ensures
        check_view_spec(body, version_text(a2, b2, c2)) == (if a > a2 || (a == a2 && (b > b2 || (b
            == b2 && c > c2))) {
            CheckView::Available(latest_tag_spec(body), u)
        } else {
            CheckView::UpToDate(latest_tag_spec(body))
        }),
{
    let e = Seq::<char>::empty();
    let tag = latest_tag_spec(body);
    let cur = version_text(a2, b2, c2);
    lemma_decimal(a as u64);
    lemma_ver_tuple_reads_version(a, b, c, e, with_v, e, e);
    assert(e + ((if with_v {
        seq!['v']
    } else {
        Seq::empty()
    }) + version_text(a, b, c) + e) + e =~= tag);
    lemma_ver_tuple_reads_version(a2, b2, c2, e, false, e, e);
    assert(e + ((if false {
        seq!['v']
    } else {
        Seq::<char>::empty()
    }) + cur + e) + e =~= cur);
    assert(tag.len() > 0);
}

/// The release tag of a description `{"tag_name": "<tag>"...` is `<tag>`,
/// read whole, whatever follows it.
pub proof fn lemma_release_tag_is_read(tag: Seq<char>, rest: Seq<char>)
    requires
        forall|i: int| 0 <= i < tag.len() ==> #[trigger] tag[i] != '"',
    ensures
        latest_tag_spec(
            seq!['{'] + seq!['"'] + "tag_name"@ + seq!['"', ':', ' ', '"'] + tag + seq!['"'] + rest,
        ) == tag,
{
    let lead = seq!['{'];
    assert forall|i: int| 0 <= i < lead.len() implies #[trigger] lead[i] != '"' by {}
    lemma_json_reads_quoted_value(lead, "tag_name"@, tag, rest);
}

/// Every outcome is decided by the running and released versions alone: the
/// running version is reported up to date exactly when the readable release
/// tag is not newer; a newer release is offered when it carries an installer
/// and reported without one otherwise; an unreadable tag is reported as such.
pub proof fn lemma_check_outcomes(body: Seq<char>, current: Seq<char>)
    ensures
        latest_tag_spec(body).len() == 0 <==> check_view_spec(body, current) is Unreadable,
        (check_view_spec(body, current) is UpToDate) <==> (latest_tag_spec(body).len() > 0
            && version_le(ver_tuple_spec(latest_tag_spec(body)), ver_tuple_spec(current))),
        forall|u: Seq<char>|
            latest_tag_spec(body).len() > 0 && !version_le(
                ver_tuple_spec(latest_tag_spec(body)),
                ver_tuple_spec(current),
            ) && exe_asset_spec(body) == Some(u) ==> check_view_spec(body, current)
                == CheckView::Available(latest_tag_spec(body), u),
        latest_tag_spec(body).len() > 0 && !version_le(
            ver_tuple_spec(latest_tag_spec(body)),
            ver_tuple_spec(current),
        ) && exe_asset_spec(body) is None ==> check_view_spec(body, current)
            == CheckView::NoInstaller(latest_tag_spec(body)),
        match check_view_spec(body, current) {
            CheckView::UpToDate(t) => t == latest_tag_spec(body),
            CheckView::NoInstaller(t) => t == latest_tag_spec(body),
            CheckView::Available(t, _) => t == latest_tag_spec(body),
            CheckView::Unreadable => true,
        },
{
}

/// Where a check for updates stands.
pub enum UpdateStage {
    /// Not started.
    Idle,
    /// Waiting for the release description to be downloaded.
    AwaitingRelease,
    /// Waiting for the downloaded description to be read.
    AwaitingBody,
    /// Waiting for the user's answer about installing from `installer`.
    AwaitingAnswer { installer: String },
    /// Waiting for the installer at `installer` to be downloaded.
    AwaitingInstaller { installer: String },
    /// Over: nothing more happens.
    Finished,
}

/// A stage with its texts as character sequences.
pub enum StageView {
    Idle,
    AwaitingRelease,
    AwaitingBody,
    AwaitingAnswer(Seq<char>),
    AwaitingInstaller(Seq<char>),
    Finished,
}

impl View for UpdateStage {
    type V = StageView;

    open spec fn view(&self) -> StageView {
        match self {
            UpdateStage::Idle => StageView::Idle,
            UpdateStage::AwaitingRelease => StageView::AwaitingRelease,
            UpdateStage::AwaitingBody => StageView::AwaitingBody,
            UpdateStage::AwaitingAnswer { installer } => StageView::AwaitingAnswer(installer@),
            UpdateStage::AwaitingInstaller { installer } => StageView::AwaitingInstaller(
                installer@,
            ),
            UpdateStage::Finished => StageView::Finished,
        }
    }
}

/// What happened outside since the last step of a check for updates.
pub enum UpdateEvent {
    /// The check is started at time `nonce`.
    Start(u64),
    /// Whether the release description was downloaded.
    ReleaseDownloaded(bool),
    /// The text of the downloaded release description.
    ReleaseRead(String),
    /// Whether the user accepted the update.
    Answered(bool),
    /// Whether the installer was downloaded.
    InstallerDownloaded(bool),
}

/// An event with its texts as character sequences.
pub enum EventView {
    Start(u64),
    ReleaseDownloaded(bool),
    ReleaseRead(Seq<char>),
    Answered(bool),
    InstallerDownloaded(bool),
}

impl View for UpdateEvent {
    type V = EventView;

    open spec fn view(&self) -> EventView {
        match self {
            UpdateEvent::Start(n) => EventView::Start(*n),
            UpdateEvent::ReleaseDownloaded(ok) => EventView::ReleaseDownloaded(*ok),
            UpdateEvent::ReleaseRead(body) => EventView::ReleaseRead(body@),
            UpdateEvent::Answered(yes) => EventView::Answered(*yes),
            UpdateEvent::InstallerDownloaded(ok) => EventView::InstallerDownloaded(*ok),
        }
    }
}

/// What the caller does next in a check for updates.
pub enum UpdateAction {
    /// Download the release description from this address, then report
    /// `ReleaseDownloaded`.
    DownloadRelease(String),
    /// Read the downloaded description and report `ReleaseRead`.
    ReadRelease,
    /// Show this single-button dialog; the check is over.
    Report(DialogText),
    /// Ask this question and report `Answered`.
    Ask(DialogText),
    /// Download the installer from this address, then report
    /// `InstallerDownloaded`.
    DownloadInstaller(String),
    /// Run the downloaded installer silently, remove the tray icon and quit.
    RunInstallerAndQuit,
    /// The user declined; the check is over.
    Stop,
    /// The event does not fit the stage; nothing to do.
    Ignore,
}

/// An action with its texts as character sequences.
pub enum ActionView {
    DownloadRelease(Seq<char>),
    ReadRelease,
    Report(DialogView),
    Ask(DialogView),
    DownloadInstaller(Seq<char>),
    RunInstallerAndQuit,
    Stop,
    Ignore,
}

impl View for UpdateAction {
    type V = ActionView;

    open spec fn view(&self) -> ActionView {
        match self {
            UpdateAction::DownloadRelease(u) => ActionView::DownloadRelease(u@),
            UpdateAction::ReadRelease => ActionView::ReadRelease,
            UpdateAction::Report(d) => ActionView::Report(d@),
            UpdateAction::Ask(d) => ActionView::Ask(d@),
            UpdateAction::DownloadInstaller(u) => ActionView::DownloadInstaller(u@),
            UpdateAction::RunInstallerAndQuit => ActionView::RunInstallerAndQuit,
            UpdateAction::Stop => ActionView::Stop,
            UpdateAction::Ignore => ActionView::Ignore,
        }
    }
}

/// One step of a check for updates from the running version `current`: the
/// next stage and action for an event. A failed description download reports
/// the connection problem; a description without a newer installable release
/// reports that; a newer one is asked about; only an accepted answer downloads
/// the installer, and only a downloaded installer is run. An event that does not
/// fit the stage changes nothing.
pub open spec fn update_next(stage: StageView, current: Seq<char>, event: EventView) -> (
    StageView,
    ActionView,
) {
    match (stage, event) {
        (StageView::Idle, EventView::Start(nonce)) => (
            StageView::AwaitingRelease,
            ActionView::DownloadRelease(release_api_url_spec(nonce)),
        ),
        (StageView::AwaitingRelease, EventView::ReleaseDownloaded(ok)) => if ok {
            (StageView::AwaitingBody, ActionView::ReadRelease)
        } else {
            (StageView::Finished, ActionView::Report(offline_view()))
        },
        (StageView::AwaitingBody, EventView::ReleaseRead(body)) => match check_view_spec(
            body,
            current,
        ) {
            CheckView::Available(latest, installer) => (
                StageView::AwaitingAnswer(installer),
                ActionView::Ask(prompt_view(latest, current)),
            ),
            other => (StageView::Finished, ActionView::Report(report_view(other).unwrap())),
        },
        (StageView::AwaitingAnswer(installer), EventView::Answered(yes)) => if yes {
            (StageView::AwaitingInstaller(installer), ActionView::DownloadInstaller(installer))
        } else {
            (StageView::Finished, ActionView::Stop)
        },
        (StageView::AwaitingInstaller(_), EventView::InstallerDownloaded(ok)) => if ok {
            (StageView::Finished, ActionView::RunInstallerAndQuit)
        } else {
            (StageView::Finished, ActionView::Report(download_failed_view()))
        },
        _ => (stage, ActionView::Ignore),
    }
}

/// A check for updates from a running version.
pub struct UpdateFlow {
    current: String,
    stage: UpdateStage,
}

impl View for UpdateFlow {
    type V = (Seq<char>, StageView);

    closed spec fn view(&self) -> (Seq<char>, StageView) {
        (self.current@, self.stage@)
    }
}

impl UpdateFlow {
    /// A check, not started yet, from the running version `current`.
    pub fn new(current: &str) -> (flow: Self)
        ensures
            flow@ == (current@, StageView::Idle),
    {
        UpdateFlow { current: String::from_str(current), stage: UpdateStage::Idle }
    }

    /// Whether the check is over.
    pub fn is_finished(&self) -> (b: bool)
        ensures
            b == (self@.1 is Finished),
    {
        match self.stage {
            UpdateStage::Finished => true,
            _ => false,
        }
    }
}

/// Takes one step of a check for updates.
pub fn update_step(flow: &mut UpdateFlow, event: UpdateEvent) -> (action: UpdateAction)
    ensures
        final(flow)@.0 == old(flow)@.0,
        (final(flow)@.1, action@) == update_next(old(flow)@.1, old(flow)@.0, event@),
{
    match event {
        UpdateEvent::Start(nonce) => match flow.stage {
            UpdateStage::Idle => {
                flow.stage = UpdateStage::AwaitingRelease;
                UpdateAction::DownloadRelease(release_api_url(nonce))
            },
            _ => UpdateAction::Ignore,
        },
        UpdateEvent::ReleaseDownloaded(ok) => match flow.stage {
            UpdateStage::AwaitingRelease => if ok {
                flow.stage = UpdateStage::AwaitingBody;
                UpdateAction::ReadRelease
            } else {
                flow.stage = UpdateStage::Finished;
                UpdateAction::Report(offline_dialog())
            },
            _ => UpdateAction::Ignore,
        },
        UpdateEvent::ReleaseRead(body) => match flow.stage {
            UpdateStage::AwaitingBody => {
                let check = update_check(body.as_str(), flow.current.as_str());
                match update_report(&check) {
                    Some(d) => {
                        flow.stage = UpdateStage::Finished;
                        UpdateAction::Report(d)
                    },
                    None => match check {
                        UpdateCheck::Available { latest, installer } => {
                            let ask = update_prompt(latest.as_str(), flow.current.as_str());
                            flow.stage = UpdateStage::AwaitingAnswer { installer };
                            UpdateAction::Ask(ask)
                        },
                        _ => UpdateAction::Ignore,
                    },
                }
            },
            _ => UpdateAction::Ignore,
        },
        UpdateEvent::Answered(yes) => match &flow.stage {
            UpdateStage::AwaitingAnswer { installer } => {
                let url = installer.clone();
                if yes {
                    flow.stage = UpdateStage::AwaitingInstaller { installer: url.clone() };
                    UpdateAction::DownloadInstaller(url)
                } else {
                    flow.stage = UpdateStage::Finished;
                    UpdateAction::Stop
                }
            },
            _ => UpdateAction::Ignore,
        },
        UpdateEvent::InstallerDownloaded(ok) => match flow.stage {
            UpdateStage::AwaitingInstaller { .. } => if ok {
                flow.stage = UpdateStage::Finished;
                UpdateAction::RunInstallerAndQuit
            } else {
                flow.stage = UpdateStage::Finished;
                UpdateAction::Report(download_failed_dialog())
            },
            _ => UpdateAction::Ignore,
        },
    }
}

/// The actions of a whole check for updates, each event given as the check
/// asks for it: whether the description downloaded, its text, the user's
/// answer and whether the installer downloaded. The run stops at the first
/// action that ends the check.
pub open spec fn update_run(
    current: Seq<char>,
    nonce: u64,
    release_ok: bool,
    body: Seq<char>,
    accepted: bool,
    installer_ok: bool,
) -> Seq<ActionView> {
    let (s1, a1) = update_next(StageView::Idle, current, EventView::Start(nonce));
    let (s2, a2) = update_next(s1, current, EventView::ReleaseDownloaded(release_ok));
    if s2 is Finished {
        seq![a1, a2]
    } else {
        let (s3, a3) = update_next(s2, current, EventView::ReleaseRead(body));
        if s3 is Finished {
            seq![a1, a2, a3]
        } else {
            let (s4, a4) = update_next(s3, current, EventView::Answered(accepted));
            if s4 is Finished {
                seq![a1, a2, a3, a4]
            } else {
                let (_, a5) = update_next(s4, current, EventView::InstallerDownloaded(installer_ok));
                seq![a1, a2, a3, a4, a5]
            }
        }
    }
}

/// The installer is run, and the program quits for it, exactly when the
/// description downloaded, names a newer release with an installer, the user
/// accepted, and the installer downloaded; it is then the last thing done.
/// A failed description download only reports the connection problem; a
/// declined offer stops right after the question; a failed installer download
/// ends with the download-failure report.
pub proof fn lemma_install_needs_consent(
    current: Seq<char>,
    nonce: u64,
    release_ok: bool,
    body: Seq<char>,
    accepted: bool,
    installer_ok: bool,
)
    ensures
        update_run(current, nonce, release_ok, body, accepted, installer_ok).contains(
            ActionView::RunInstallerAndQuit,
        ) <==> (release_ok && check_view_spec(body, current) is Available && accepted
            && installer_ok),
        (release_ok && check_view_spec(body, current) is Available && accepted && installer_ok)
            ==> update_run(current, nonce, release_ok, body, accepted, installer_ok).last()
            == ActionView::RunInstallerAndQuit,
        !release_ok ==> update_run(current, nonce, release_ok, body, accepted, installer_ok)
            == seq![
            ActionView::DownloadRelease(release_api_url_spec(nonce)),
            ActionView::Report(offline_view()),
        ],
        (release_ok && check_view_spec(body, current) is Available && !accepted) ==> {
            let run = update_run(current, nonce, release_ok, body, accepted, installer_ok);
            &&& run.len() == 4
            &&& run.last() == ActionView::Stop
        },
        (release_ok && check_view_spec(body, current) is Available && accepted && !installer_ok)
            ==> update_run(current, nonce, release_ok, body, accepted, installer_ok).last()
            == ActionView::Report(download_failed_view()),
{
    let run = update_run(current, nonce, release_ok, body, accepted, installer_ok);
    if release_ok && check_view_spec(body, current) is Available && accepted && installer_ok {
        assert(run[4] == ActionView::RunInstallerAndQuit);
    } else if run.contains(ActionView::RunInstallerAndQuit) {
        let k = choose|k: int| 0 <= k < run.len() && run[k] == ActionView::RunInstallerAndQuit;
        assert(false);
    }
}

/// A finished check ignores whatever comes after it.
pub proof fn lemma_finished_check_ignores(current: Seq<char>, event: EventView)
    ensures
        update_next(StageView::Finished, current, event) == (
            StageView::Finished,
            ActionView::Ignore,
        ),
{
}

/// Reading the release description answers with what the check found: a
/// check that ends is reported with its own outcome's dialog (an unreadable
/// tag, "up to date" with the release tag, or "available but no installer"
/// with the release tag), and an available update is asked about, waiting for
/// the answer with its installer address.
pub proof fn lemma_release_read_reports_its_outcome(current: Seq<char>, body: Seq<char>)
    ensures
        match check_view_spec(body, current) {
            CheckView::Available(latest, installer) => update_next(
                StageView::AwaitingBody,
                current,
                EventView::ReleaseRead(body),
            ) == (StageView::AwaitingAnswer(installer), ActionView::Ask(
                prompt_view(latest, current),
            )),
            CheckView::Unreadable => update_next(
                StageView::AwaitingBody,
                current,
                EventView::ReleaseRead(body),
            ) == (StageView::Finished, ActionView::Report(
                DialogView {
                    heading: "Não foi possível verificar"@,
                    body: "Não foi possível ler a versão mais recente do servidor."@,
                    primary: "OK"@,
                    secondary: ""@,
                },
            )),
            CheckView::UpToDate(latest) => update_next(
                StageView::AwaitingBody,
                current,
                EventView::ReleaseRead(body),
            ) == (StageView::Finished, ActionView::Report(
                DialogView {
                    heading: "Tudo atualizado"@,
                    body: "Você já está na versão mais recente ("@ + latest + ")."@,
                    primary: "OK"@,
                    secondary: ""@,
                },
            )),
            CheckView::NoInstaller(latest) => update_next(
                StageView::AwaitingBody,
                current,
                EventView::ReleaseRead(body),
            ) == (StageView::Finished, ActionView::Report(
                DialogView {
                    heading: "Atualização disponível"@,
                    body: "A versão "@ + latest
                        + " está disponível, mas o instalador não foi encontrado no release."@,
                    primary: "OK"@,
                    secondary: ""@,
                },
            )),
        },
        !(check_view_spec(body, current) is Available) ==> update_next(
            StageView::AwaitingBody,
            current,
            EventView::ReleaseRead(body),
        ) == (StageView::Finished, ActionView::Report(
            report_view(check_view_spec(body, current)).unwrap(),
        )),
{
}

} // verus!
