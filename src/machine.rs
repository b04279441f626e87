//! The provisioning procedure as a machine: it hands out one request at a
//! time (look up the home directory, probe a path, create a directory,
//! download, move, extract) and moves on by the answer it gets back.
use vstd::prelude::*;

use crate::error::{
    create_dir_error, create_dir_error_of, download_error, download_error_of,
    environment_error, environment_error_of, extract_error, extract_error_of,
    missing_font_error, missing_font_error_of, not_a_directory_error, not_a_directory_error_of,
    rename_error, rename_error_of, status_error, status_error_of, write_error, write_error_of,
    ErrorView, ProvisionError,
};
use crate::layout::{
    base_dir, base_dir_of, font_path, font_path_of, partial_zip_path, partial_zip_path_of,
    zip_path, zip_path_of, DOWNLOAD_URL, FONT_NAME,
};
use crate::status::{is_success_status, status_line, status_line_of};

verus! {

/// How far the procedure has come; each phase waits for one answer.
#[derive(Clone, Copy, Debug, PartialEq, Eq, Structural)]
pub enum Phase {
    /// Waiting for the home directory.
    AwaitHome,
    /// Waiting to learn whether the font directory exists.
    CheckBase,
    /// Waiting for the font directory to be created.
    CreateBase,
    /// Creation found something in place; waiting to learn whether it is a directory.
    RecheckBase,
    /// Waiting to learn whether the font is already there.
    CheckFont,
    /// Waiting to learn whether the archive is already there.
    CheckZip,
    /// Waiting for the archive download into its partial file.
    Download,
    /// A failure is pending; waiting for the partial download to be removed.
    Discard,
    /// Waiting for the partial download to be moved to the archive's place.
    Commit,
    /// Waiting for the archive to be unpacked into the font directory.
    Extract,
    /// Unpacking is done; waiting to learn whether the font is now there.
    ConfirmFont,
    /// The font is in place.
    Succeeded,
    /// The procedure failed.
    Failed,
}

/// What the caller is asked to do next.
#[derive(Debug)]
pub enum Request {
    /// Look up the user's home directory; answer `Home`.
    HomeDir,
    /// Is there a directory at this path? Answer `Exists`.
    IsDir(String),
    /// Create this directory, non-recursively; answer `Done`, `AlreadyExists` or `Failed`.
    CreateDir(String),
    /// Is there a regular file at this path? Answer `Exists`.
    IsFile(String),
    /// Fetch `url` into the file `dest`; answer `Transferred`, `Unreachable`, or `Failed`
    /// when `dest` cannot be created.
    Download { url: String, dest: String },
    /// Remove this file if it is there; answer `Done` or `Failed`.
    Remove(String),
    /// Move the file `from` to `to`; answer `Done` or `Failed`.
    Rename { from: String, to: String },
    /// Unpack the archive into `dest`; answer `Done` or `Failed`.
    Extract { archive: String, dest: String },
    /// Nothing is left to do: the font's path, or why there is none.
    Finished(Result<String, ProvisionError>),
}

/// What the caller reports back.
#[derive(Debug)]
pub enum Answer {
    /// The home directory, if one is set.
    Home(Option<String>),
    /// Whether the probed path is there, of the kind asked for.
    Exists(bool),
    /// The request was carried out.
    Done,
    /// The directory to be created is already there.
    AlreadyExists,
    /// The transfer completed, and the server answered with this status code.
    Transferred(u16),
    /// The transfer failed (name lookup, connection, TLS, reading or writing the stream).
    Unreachable(String),
    /// The request failed locally, for this reason.
    Failed(String),
}

/// The mathematical content of a [`Request`].
pub ghost enum RequestView {
    HomeDir,
    IsDir(Seq<char>),
    CreateDir(Seq<char>),
    IsFile(Seq<char>),
    Download { url: Seq<char>, dest: Seq<char> },
    Remove(Seq<char>),
    Rename { from: Seq<char>, to: Seq<char> },
    Extract { archive: Seq<char>, dest: Seq<char> },
    Finished(Result<Seq<char>, ErrorView>),
}

/// The mathematical content of an [`Answer`].
pub ghost enum AnswerView {
    Home(Option<Seq<char>>),
    Exists(bool),
    Done,
    AlreadyExists,
    Transferred(u16),
    Unreachable(Seq<char>),
    Failed(Seq<char>),
}

impl View for Request {
    type V = RequestView;

    open spec fn view(&self) -> RequestView {
        match self {
            Request::HomeDir => RequestView::HomeDir,
            Request::IsDir(p) => RequestView::IsDir(p@),
            Request::CreateDir(p) => RequestView::CreateDir(p@),
            Request::IsFile(p) => RequestView::IsFile(p@),
            Request::Download { url, dest } => RequestView::Download { url: url@, dest: dest@ },
            Request::Remove(p) => RequestView::Remove(p@),
            Request::Rename { from, to } => RequestView::Rename { from: from@, to: to@ },
            Request::Extract { archive, dest } => RequestView::Extract {
                archive: archive@,
                dest: dest@,
            },
            Request::Finished(Ok(p)) => RequestView::Finished(Ok(p@)),
            Request::Finished(Err(e)) => RequestView::Finished(Err(e@)),
        }
    }
}

impl View for Answer {
    type V = AnswerView;

    open spec fn view(&self) -> AnswerView {
        match self {
            Answer::Home(Some(h)) => AnswerView::Home(Some(h@)),
            Answer::Home(None) => AnswerView::Home(None),
            Answer::Exists(b) => AnswerView::Exists(*b),
            Answer::Done => AnswerView::Done,
            Answer::AlreadyExists => AnswerView::AlreadyExists,
            Answer::Transferred(code) => AnswerView::Transferred(*code),
            Answer::Unreachable(c) => AnswerView::Unreachable(c@),
            Answer::Failed(c) => AnswerView::Failed(c@),
        }
    }
}

/// The procedure's state: its phase, the home directory once known, and the
/// failure once one has happened.
pub struct Provision {
    phase: Phase,
    home: String,
    failure: Option<ProvisionError>,
}

/// The mathematical content of a [`Provision`].
pub ghost struct ProvisionView {
    pub phase: Phase,
    pub home: Seq<char>,
    pub failure: Option<ErrorView>,
}

impl View for Provision {
    type V = ProvisionView;

    closed spec fn view(&self) -> ProvisionView {
        ProvisionView {
            phase: self.phase,
            home: self.home@,
            failure: match self.failure {
                Some(e) => Some(e@),
                None => None,
            },
        }
    }
}

/// The phases that carry a failure.
pub open spec fn holds_failure(phase: Phase) -> bool {
    phase == Phase::Discard || phase == Phase::Failed
}

/// A state records a failure exactly in the phases that carry one.
pub open spec fn well_formed(s: ProvisionView) -> bool {
    s.failure is Some <==> holds_failure(s.phase)
}

/// The state before anything is known.
pub open spec fn start() -> ProvisionView {
    ProvisionView { phase: Phase::AwaitHome, home: Seq::empty(), failure: None }
}

/// `s` moved on to the phase `phase`, which carries no failure.
pub open spec fn moved(s: ProvisionView, phase: Phase) -> ProvisionView {
    ProvisionView { phase, home: s.home, failure: None }
}

/// `s` with the failure `e` pending, the partial download still to remove.
pub open spec fn discarding(s: ProvisionView, e: ErrorView) -> ProvisionView {
    ProvisionView { phase: Phase::Discard, home: s.home, failure: Some(e) }
}

/// `s` ended by the failure `e`.
pub open spec fn failed(s: ProvisionView, e: ErrorView) -> ProvisionView {
    ProvisionView { phase: Phase::Failed, home: s.home, failure: Some(e) }
}

/// What a state asks of the caller.
pub open spec fn request_of(s: ProvisionView) -> RequestView {
    let base = base_dir_of(s.home);
    match s.phase {
        Phase::AwaitHome => RequestView::HomeDir,
        Phase::CheckBase | Phase::RecheckBase => RequestView::IsDir(base),
        Phase::CreateBase => RequestView::CreateDir(base),
        Phase::CheckFont | Phase::ConfirmFont => RequestView::IsFile(font_path_of(base)),
        Phase::CheckZip => RequestView::IsFile(zip_path_of(base)),
        Phase::Download => RequestView::Download {
            url: DOWNLOAD_URL@,
            dest: partial_zip_path_of(base),
        },
        Phase::Discard => RequestView::Remove(partial_zip_path_of(base)),
        Phase::Commit => RequestView::Rename {
            from: partial_zip_path_of(base),
            to: zip_path_of(base),
        },
        Phase::Extract => RequestView::Extract { archive: zip_path_of(base), dest: base },
        Phase::Succeeded => RequestView::Finished(Ok(font_path_of(base))),
        Phase::Failed => RequestView::Finished(Err(s.failure->Some_0)),
    }
}

/// The state after `s` receives the answer `a`. An answer that does not fit
/// the pending request leaves the state as it is.
pub open spec fn next(s: ProvisionView, a: AnswerView) -> ProvisionView {
    let base = base_dir_of(s.home);
    let partial = partial_zip_path_of(base);
    let archive = zip_path_of(base);
    match s.phase {
        Phase::AwaitHome => match a {
            AnswerView::Home(found) => if found is Some && found->Some_0.len() > 0 {
                ProvisionView { phase: Phase::CheckBase, home: found->Some_0, failure: None }
            } else {
                failed(s, environment_error_of())
            },
            _ => s,
        },
        Phase::CheckBase => match a {
            AnswerView::Exists(true) => moved(s, Phase::CheckFont),
            AnswerView::Exists(false) => moved(s, Phase::CreateBase),
            _ => s,
        },
        Phase::CreateBase => match a {
            AnswerView::Done => moved(s, Phase::CheckFont),
            AnswerView::AlreadyExists => moved(s, Phase::RecheckBase),
            AnswerView::Failed(cause) => failed(s, create_dir_error_of(base, cause)),
            _ => s,
        },
        Phase::RecheckBase => match a {
            AnswerView::Exists(true) => moved(s, Phase::CheckFont),
            AnswerView::Exists(false) => failed(s, not_a_directory_error_of(base)),
            _ => s,
        },
        Phase::CheckFont => match a {
            AnswerView::Exists(true) => moved(s, Phase::Succeeded),
            AnswerView::Exists(false) => moved(s, Phase::CheckZip),
            _ => s,
        },
        Phase::CheckZip => match a {
            AnswerView::Exists(true) => moved(s, Phase::Extract),
            AnswerView::Exists(false) => moved(s, Phase::Download),
            _ => s,
        },
        Phase::Download => match a {
            AnswerView::Transferred(code) => if 200 <= code && code <= 299 {
                moved(s, Phase::Commit)
            } else {
                discarding(s, status_error_of(DOWNLOAD_URL@, status_line_of(code)))
            },
            AnswerView::Unreachable(cause) => discarding(s, download_error_of(DOWNLOAD_URL@, cause)),
            AnswerView::Failed(cause) => discarding(s, write_error_of(partial, cause)),
            _ => s,
        },
        Phase::Discard => match a {
            AnswerView::Done | AnswerView::Failed(_) => ProvisionView {
                phase: Phase::Failed,
                home: s.home,
                failure: s.failure,
            },
            _ => s,
        },
        Phase::Commit => match a {
            AnswerView::Done => moved(s, Phase::Extract),
            AnswerView::Failed(cause) => discarding(s, rename_error_of(partial, archive, cause)),
            _ => s,
        },
        Phase::Extract => match a {
            AnswerView::Done => moved(s, Phase::ConfirmFont),
            AnswerView::Failed(cause) => failed(s, extract_error_of(archive, cause)),
            _ => s,
        },
        Phase::ConfirmFont => match a {
            AnswerView::Exists(true) => moved(s, Phase::Succeeded),
            AnswerView::Exists(false) => failed(s, missing_font_error_of(archive, FONT_NAME@)),
            _ => s,
        },
        Phase::Succeeded | Phase::Failed => s,
    }
}

impl Provision {
    #[verifier::type_invariant]
    spec fn failure_fits_phase(self) -> bool {
        self.failure is Some <==> holds_failure(self.phase)
    }

    /// A procedure that has not started yet.
    pub fn new() -> (r: Provision)
        ensures
            r@ == start(),
    {
        Provision { phase: Phase::AwaitHome, home: String::new(), failure: None }
    }

    /// The phase the procedure is in.
    pub fn phase(&self) -> (r: Phase)
        ensures
            r == self@.phase,
    {
        self.phase
    }

    /// What the caller is to do next.
    pub fn request(&self) -> (r: Request)
        ensures
            r@ == request_of(self@),
    {
        proof {
            use_type_invariant(self);
        }
        match self.phase {
            Phase::AwaitHome => Request::HomeDir,
            Phase::CheckBase | Phase::RecheckBase => Request::IsDir(base_dir(self.home.as_str())),
            Phase::CreateBase => Request::CreateDir(base_dir(self.home.as_str())),
            Phase::CheckFont | Phase::ConfirmFont => {
                let base = base_dir(self.home.as_str());
                Request::IsFile(font_path(base.as_str()))
            },
            Phase::CheckZip => {
                let base = base_dir(self.home.as_str());
                Request::IsFile(zip_path(base.as_str()))
            },
            Phase::Download => {
                let base = base_dir(self.home.as_str());
                Request::Download {
                    url: String::from_str(DOWNLOAD_URL),
                    dest: partial_zip_path(base.as_str()),
                }
            },
            Phase::Discard => {
                let base = base_dir(self.home.as_str());
                Request::Remove(partial_zip_path(base.as_str()))
            },
            Phase::Commit => {
                let base = base_dir(self.home.as_str());
                Request::Rename {
                    from: partial_zip_path(base.as_str()),
                    to: zip_path(base.as_str()),
                }
            },
            Phase::Extract => {
                let base = base_dir(self.home.as_str());
                Request::Extract { archive: zip_path(base.as_str()), dest: base }
            },
            Phase::Succeeded => {
                let base = base_dir(self.home.as_str());
                Request::Finished(Ok(font_path(base.as_str())))
            },
            Phase::Failed => match &self.failure {
                Some(e) => Request::Finished(Err(e.duplicate())),
                // The type invariant records a failure in this phase.
                None => Request::Finished(Err(environment_error())),
            },
        }
    }

    /// `self` moved on to `phase`, which carries no failure.
    fn moved(self, phase: Phase) -> (r: Provision)
        requires
            !holds_failure(phase),
        ensures
            r@ == moved(self@, phase),
    {
        Provision { phase, home: self.home, failure: None }
    }

    /// `self` with the failure `e` recorded, in `phase`.
    fn with_failure(self, phase: Phase, e: ProvisionError) -> (r: Provision)
        requires
            holds_failure(phase),
        ensures
            r@ == (ProvisionView { phase, home: self@.home, failure: Some(e@) }),
    {
        Provision { phase, home: self.home, failure: Some(e) }
    }

    /// The state after the answer `answer` to the pending request.
    pub fn advance(self, answer: Answer) -> (r: Provision)
        ensures
            r@ == next(self@, answer@),
    {
        proof {
            use_type_invariant(&self);
        }
        let phase = self.phase;
        match phase {
            Phase::AwaitHome => match answer {
                Answer::Home(Some(h)) => {
                    if h.as_str().unicode_len() > 0 {
                        Provision { phase: Phase::CheckBase, home: h, failure: None }
                    } else {
                        self.with_failure(Phase::Failed, environment_error())
                    }
                },
                Answer::Home(None) => self.with_failure(Phase::Failed, environment_error()),
                _ => self,
            },
            Phase::CheckBase => match answer {
                Answer::Exists(true) => self.moved(Phase::CheckFont),
                Answer::Exists(false) => self.moved(Phase::CreateBase),
                _ => self,
            },
            Phase::CreateBase => match answer {
                Answer::Done => self.moved(Phase::CheckFont),
                Answer::AlreadyExists => self.moved(Phase::RecheckBase),
                Answer::Failed(cause) => {
                    let base = base_dir(self.home.as_str());
                    let e = create_dir_error(base.as_str(), cause.as_str());
                    self.with_failure(Phase::Failed, e)
                },
                _ => self,
            },
            Phase::RecheckBase => match answer {
                Answer::Exists(true) => self.moved(Phase::CheckFont),
                Answer::Exists(false) => {
                    let base = base_dir(self.home.as_str());
                    let e = not_a_directory_error(base.as_str());
                    self.with_failure(Phase::Failed, e)
                },
                _ => self,
            },
            Phase::CheckFont => match answer {
                Answer::Exists(true) => self.moved(Phase::Succeeded),
                Answer::Exists(false) => self.moved(Phase::CheckZip),
                _ => self,
            },
            Phase::CheckZip => match answer {
                Answer::Exists(true) => self.moved(Phase::Extract),
                Answer::Exists(false) => self.moved(Phase::Download),
                _ => self,
            },
            Phase::Download => match answer {
                Answer::Transferred(code) => {
                    if is_success_status(code) {
                        self.moved(Phase::Commit)
                    } else {
                        let line = status_line(code);
                        let e = status_error(DOWNLOAD_URL, line.as_str());
                        self.with_failure(Phase::Discard, e)
                    }
                },
                Answer::Unreachable(cause) => {
                    let e = download_error(DOWNLOAD_URL, cause.as_str());
                    self.with_failure(Phase::Discard, e)
                },
                Answer::Failed(cause) => {
                    let base = base_dir(self.home.as_str());
                    let partial = partial_zip_path(base.as_str());
                    let e = write_error(partial.as_str(), cause.as_str());
                    self.with_failure(Phase::Discard, e)
                },
                _ => self,
            },
            Phase::Discard => match answer {
                Answer::Done | Answer::Failed(_) => Provision {
                    phase: Phase::Failed,
                    home: self.home,
                    failure: self.failure,
                },
                _ => self,
            },
            Phase::Commit => match answer {
                Answer::Done => self.moved(Phase::Extract),
                Answer::Failed(cause) => {
                    let base = base_dir(self.home.as_str());
                    let partial = partial_zip_path(base.as_str());
                    let archive = zip_path(base.as_str());
                    let e = rename_error(partial.as_str(), archive.as_str(), cause.as_str());
                    self.with_failure(Phase::Discard, e)
                },
                _ => self,
            },
            Phase::Extract => match answer {
                Answer::Done => self.moved(Phase::ConfirmFont),
                Answer::Failed(cause) => {
                    let base = base_dir(self.home.as_str());
                    let archive = zip_path(base.as_str());
                    let e = extract_error(archive.as_str(), cause.as_str());
                    self.with_failure(Phase::Failed, e)
                },
                _ => self,
            },
            Phase::ConfirmFont => match answer {
                Answer::Exists(true) => self.moved(Phase::Succeeded),
                Answer::Exists(false) => {
                    let base = base_dir(self.home.as_str());
                    let archive = zip_path(base.as_str());
                    let e = missing_font_error(archive.as_str(), FONT_NAME);
                    self.with_failure(Phase::Failed, e)
                },
                _ => self,
            },
            Phase::Succeeded | Phase::Failed => self,
        }
    }
}

} // verus!
