//! The helper process that holds the terminals of an application whose output
//! is captured: the arguments it is started with, and what it does with them.
use vstd::prelude::*;
use vstd::utf8::encode_utf8;

use crate::bytes::{
    blobs, copy_bytes, encode_texts, encoded, encoding_tells_texts_apart, is_word, optional_bytes,
    push_bytes, push_from, push_word,
};
use crate::error::{Error, ErrorView};
use crate::text::{decode_lossy, texts, utf8_lossy};

verus! {

/// A word in UTF-8.
pub open spec fn word(text: &str) -> Seq<u8> {
    encode_utf8(text@)
}

/// What the helper is asked to do. Paths and arguments are byte strings: the
/// helper hands them on as they are.
pub struct HelperRequest {
    /// The path of the application bundle.
    pub bundle: Vec<u8>,
    /// Launch without taking the focus.
    pub background: bool,
    /// Outlive the process that started the helper.
    pub detached: bool,
    /// A URL for the application to open.
    pub url: Option<Vec<u8>>,
    /// The arguments for the application.
    pub app_args: Vec<Vec<u8>>,
}

/// What the arguments of the helper say so far.
#[verifier::ext_equal]
pub struct RequestView {
    pub bundle: Option<Seq<u8>>,
    pub background: bool,
    pub detached: bool,
    pub url: Option<Seq<u8>>,
    pub app_args: Seq<Seq<u8>>,
}

/// What the arguments of the helper come to.
#[verifier::ext_equal]
pub enum ParsedView {
    /// An argument that the helper does not know.
    Unknown(Seq<u8>),
    Request(RequestView),
}

impl RequestView {
    /// Nothing has been said yet.
    pub open spec fn empty() -> RequestView {
        RequestView {
            bundle: None,
            background: false,
            detached: false,
            url: None,
            app_args: seq![],
        }
    }

    /// What `args` add to this.
    pub open spec fn then_read(self, args: Seq<Seq<u8>>) -> ParsedView
        decreases args.len(),
    {
        if args.len() == 0 {
            ParsedView::Request(self)
        } else if args[0] == word("--bundle") {
            if args.len() == 1 {
                ParsedView::Request(RequestView { bundle: None, ..self })
            } else {
                (RequestView { bundle: Some(args[1]), ..self }).then_read(args.skip(2))
            }
        } else if args[0] == word("--background") {
            (RequestView { background: true, ..self }).then_read(args.skip(1))
        } else if args[0] == word("--detached") {
            (RequestView { detached: true, ..self }).then_read(args.skip(1))
        } else if args[0] == word("--url") {
            if args.len() == 1 {
                ParsedView::Request(RequestView { url: None, ..self })
            } else {
                (RequestView { url: Some(args[1]), ..self }).then_read(args.skip(2))
            }
        } else if args[0] == word("--") {
            ParsedView::Request(RequestView { app_args: args.skip(1), ..self })
        } else {
            ParsedView::Unknown(args[0])
        }
    }
}

impl View for HelperRequest {
    type V = RequestView;

    /// The request, byte by byte.
    open spec fn view(&self) -> RequestView {
        RequestView {
            bundle: Some(self.bundle@),
            background: self.background,
            detached: self.detached,
            url: optional_bytes(self.url),
            app_args: blobs(self.app_args@),
        }
    }
}

/// Which of the two output streams of an application.
#[derive(Debug, Clone, Copy, PartialEq, Eq, Structural)]
pub enum Stream {
    Stdout,
    Stderr,
}

/// Why the helper ends without having done its work.
pub enum HelperFailure {
    /// It was given an argument that it does not know.
    UnknownArg(String),
    /// It was not told which bundle to launch.
    BundleMissing,
    /// The terminal for one of the streams could not be made.
    Pty(Stream, String),
    /// The program that launches the bundle could not be started.
    OpenNotStarted(String),
    /// The program that launches the bundle failed.
    OpenFailed(String),
}

impl HelperFailure {
    /// What the helper says before it ends.
    pub open spec fn text(&self) -> Seq<char> {
        match self {
            HelperFailure::UnknownArg(arg) => "launch-control: unknown arg: "@ + arg@,
            HelperFailure::BundleMissing => "launch-control: --bundle <path> required"@,
            HelperFailure::Pty(Stream::Stdout, cause) => {
                "launch-control: create_pty(stdout) failed: "@ + cause@
            },
            HelperFailure::Pty(Stream::Stderr, cause) => {
                "launch-control: create_pty(stderr) failed: "@ + cause@
            },
            HelperFailure::OpenNotStarted(cause) => {
                "launch-control: failed to spawn /usr/bin/open: "@ + cause@
            },
            HelperFailure::OpenFailed(stderr) => "launch-control: open failed: "@ + stderr@,
        }
    }

    /// What the helper says before it ends.
    pub fn message(&self) -> (message: String)
        ensures
            message@ == self.text(),
    {
        match self {
            HelperFailure::UnknownArg(arg) => "launch-control: unknown arg: ".to_string().concat(
                arg.as_str(),
            ),
            HelperFailure::BundleMissing => "launch-control: --bundle <path> required".to_string(),
            HelperFailure::Pty(
                Stream::Stdout,
                cause,
            ) => "launch-control: create_pty(stdout) failed: ".to_string().concat(cause.as_str()),
            HelperFailure::Pty(
                Stream::Stderr,
                cause,
            ) => "launch-control: create_pty(stderr) failed: ".to_string().concat(cause.as_str()),
            HelperFailure::OpenNotStarted(
                cause,
            ) => "launch-control: failed to spawn /usr/bin/open: ".to_string().concat(
                cause.as_str(),
            ),
            HelperFailure::OpenFailed(stderr) => "launch-control: open failed: ".to_string().concat(
                stderr.as_str(),
            ),
        }
    }

    /// The exit code of the helper: 2 where it was called wrongly, 1 where it
    /// could not do its work.
    pub fn exit_code(&self) -> (code: i32)
        ensures
            code == if self is UnknownArg || self is BundleMissing {
                2i32
            } else {
                1i32
            },
    {
        match self {
            HelperFailure::UnknownArg(_) | HelperFailure::BundleMissing => 2,
            _ => 1,
        }
    }
}

/// Reads the arguments of the helper. One that it does not know is reported as
/// it is shown to a person.
pub fn parse_helper_args(args: &Vec<Vec<u8>>) -> (parsed: Result<HelperRequest, HelperFailure>)
    ensures
        match RequestView::empty().then_read(blobs(args@)) {
            ParsedView::Unknown(arg) => parsed matches Err(HelperFailure::UnknownArg(a)) && a@
                == utf8_lossy(arg),
            ParsedView::Request(request) => if request.bundle is None {
                parsed matches Err(HelperFailure::BundleMissing)
            } else {
                parsed matches Ok(read) && read@ == request
            },
        },
{
    let mut bundle: Option<Vec<u8>> = None;
    let mut background = false;
    let mut detached = false;
    let mut url: Option<Vec<u8>> = None;
    let mut app_args: Vec<Vec<u8>> = Vec::new();
    let mut i: usize = 0;
    let ghost all = blobs(args@);
    let ghost result = RequestView::empty().then_read(all);
    assert(all.skip(0) =~= all);
    let mut more = true;
    assert(blobs(app_args@) =~= seq![]);
    while more && i < args.len()
        invariant
            i <= args@.len(),
            all == blobs(args@),
            more ==> blobs(app_args@) == Seq::<Seq<u8>>::empty(),
            ({
                let now = RequestView {
                    bundle: optional_bytes(bundle),
                    background,
                    detached,
                    url: optional_bytes(url),
                    app_args: blobs(app_args@),
                };
                result == if more {
                    now.then_read(all.skip(i as int))
                } else {
                    ParsedView::Request(now)
                }
            }),
            result == RequestView::empty().then_read(all),
        decreases (args@.len() - i) + (if more { 1int } else { 0 }),
    {
        let arg = args[i].as_slice();
        let ghost rest = all.skip(i as int);
        assert(rest[0] == arg@);
        assert(rest.skip(1) =~= all.skip(i + 1));
        proof {
            if i + 1 < args@.len() {
                assert(rest[1] == args@[i + 1]@);
                assert(rest.skip(2) =~= all.skip(i + 2));
            }
        }
        if is_word(arg, "--bundle") {
            if i + 1 < args.len() {
                bundle = Some(copy_bytes(args[i + 1].as_slice()));
                i += 2;
            } else {
                bundle = None;
                more = false;
            }
        } else if is_word(arg, "--background") {
            background = true;
            i += 1;
        } else if is_word(arg, "--detached") {
            detached = true;
            i += 1;
        } else if is_word(arg, "--url") {
            if i + 1 < args.len() {
                url = Some(copy_bytes(args[i + 1].as_slice()));
                i += 2;
            } else {
                url = None;
                more = false;
            }
        } else if is_word(arg, "--") {
            push_from(&mut app_args, args, i + 1);
            assert(blobs(app_args@) =~= rest.skip(1));
            more = false;
        } else {
            return Err(HelperFailure::UnknownArg(decode_lossy(arg)));
        }
    }
    match bundle {
        Some(bundle) => Ok(HelperRequest { bundle, background, detached, url, app_args }),
        None => Err(HelperFailure::BundleMissing),
    }
}

/// The arguments that ask the helper for `request`.
pub open spec fn asks_for(request: RequestView) -> Seq<Seq<u8>> {
    let flags = seq![word("--bundle"), request.bundle->0] + (if request.background {
        seq![word("--background")]
    } else {
        seq![]
    }) + (if request.detached {
        seq![word("--detached")]
    } else {
        seq![]
    }) + (match request.url {
        Some(url) => seq![word("--url"), url],
        None => seq![],
    });
    if request.app_args.len() == 0 {
        flags
    } else {
        flags.push(word("--")) + request.app_args
    }
}

/// The arguments to start the helper with: `prefix`, and then what asks it for
/// `request`.
pub fn helper_args(prefix: &Vec<String>, request: &HelperRequest) -> (args: Vec<Vec<u8>>)
    ensures
        blobs(args@) == encoded(texts(prefix@)) + asks_for(request@),
{
    let mut args = encode_texts(prefix);
    let ghost start = encoded(texts(prefix@));
    push_word(&mut args, "--bundle");
    push_bytes(&mut args, request.bundle.as_slice());
    if request.background {
        push_word(&mut args, "--background");
    }
    if request.detached {
        push_word(&mut args, "--detached");
    }
    match &request.url {
        Some(url) => {
            push_word(&mut args, "--url");
            push_bytes(&mut args, url.as_slice());
        },
        None => {},
    }
    if request.app_args.len() > 0 {
        push_word(&mut args, "--");
        push_from(&mut args, &request.app_args, 0);
        assert(blobs(request.app_args@).skip(0) =~= blobs(request.app_args@));
    }
    assert(blobs(args@) =~= start + asks_for(request@));
    args
}

/// What the launching program is to be given for `request`, with the terminals
/// that take the output of the application.
pub open spec fn launches(request: RequestView, stdout: Seq<u8>, stderr: Seq<u8>) -> Seq<Seq<u8>> {
    let flags = seq![word("-n")] + (if request.background {
        seq![word("-g"), word("-j")]
    } else {
        seq![]
    }) + seq![
        word("-a"),
        request.bundle->0,
        word("--stdout"),
        stdout,
        word("--stderr"),
        stderr,
    ] + (match request.url {
        Some(url) => seq![word("-u"), url],
        None => seq![],
    });
    if request.app_args.len() == 0 {
        flags
    } else {
        flags.push(word("--args")) + request.app_args
    }
}

/// The arguments for `/usr/bin/open`.
pub fn open_args(request: &HelperRequest, stdout: &[u8], stderr: &[u8]) -> (args: Vec<Vec<u8>>)
    ensures
        blobs(args@) == launches(request@, stdout@, stderr@),
{
    let mut args: Vec<Vec<u8>> = Vec::new();
    assert(blobs(args@) =~= seq![]);
    push_word(&mut args, "-n");
    if request.background {
        push_word(&mut args, "-g");
        push_word(&mut args, "-j");
    }
    push_word(&mut args, "-a");
    push_bytes(&mut args, request.bundle.as_slice());
    push_word(&mut args, "--stdout");
    push_bytes(&mut args, stdout);
    push_word(&mut args, "--stderr");
    push_bytes(&mut args, stderr);
    match &request.url {
        Some(url) => {
            push_word(&mut args, "-u");
            push_bytes(&mut args, url.as_slice());
        },
        None => {},
    }
    if request.app_args.len() > 0 {
        push_word(&mut args, "--args");
        push_from(&mut args, &request.app_args, 0);
        assert(blobs(request.app_args@).skip(0) =~= blobs(request.app_args@));
    }
    assert(blobs(args@) =~= launches(request@, stdout@, stderr@));
    args
}

/// What the launching program ended with: `Some(true)` for success, `None`
/// where its end could not be learned.
pub fn open_outcome(success: Option<bool>, stderr: &str) -> (outcome: Result<(), HelperFailure>)
    ensures
        success == Some(true) <==> outcome is Ok,
        outcome matches Err(failure) ==> (failure matches HelperFailure::OpenFailed(text) && text@
            == stderr@),
{
    match success {
        Some(true) => Ok(()),
        _ => Err(HelperFailure::OpenFailed(stderr.to_string())),
    }
}

/// Whether the helper ends with the process that started it: it does unless it
/// is detached or that process is already gone, its place taken by the first
/// process of the system.
pub fn follows_parent(detached: bool, parent: u32) -> (follows: bool)
    ensures
        follows == (!detached && parent > 1),
{
    !detached && parent > 1
}

/// The last of the identifiers that names a process.
pub open spec fn last_process(pids: Seq<i32>) -> Option<i32>
    decreases pids.len(),
{
    if pids.len() == 0 {
        None
    } else if pids.last() > 0 {
        Some(pids.last())
    } else {
        last_process(pids.drop_last())
    }
}

/// The process of the bundle whose end the helper notes in its log.
pub fn logged_process(bundle_id: &str, pids: &Vec<i32>) -> (pid: Option<i32>)
    ensures
        pid == if bundle_id@.len() == 0 {
            None
        } else {
            last_process(pids@)
        },
{
    if bundle_id.is_empty() {
        return None;
    }
    let mut pid: Option<i32> = None;
    let mut i: usize = 0;
    assert(pids@.take(0) =~= seq![]);
    while i < pids.len()
        invariant
            i <= pids@.len(),
            pid == last_process(pids@.take(i as int)),
        decreases pids@.len() - i,
    {
        assert(pids@.take(i + 1).drop_last() =~= pids@.take(i as int));
        assert(pids@.take(i + 1).last() == pids@[i as int]);
        if pids[i] > 0 {
            pid = Some(pids[i]);
        }
        i += 1;
    }
    assert(pids@.take(i as int) =~= pids@);
    pid
}

// ------------------------------------------------------ finding the helper

/// How a caller wants the helper to be started.
pub struct HelperInvocation {
    /// The path of the program.
    pub bin: Vec<u8>,
    /// The arguments that stand before those of the helper.
    pub prefix_args: Vec<String>,
}

/// Where to look for the helper.
pub enum HelperPlace {
    /// Where a caller has said.
    Configured(HelperInvocation),
    /// Beside the running program.
    BesideProgram,
}

/// Where to look for the helper: where a caller has said how to start it, there
/// and nowhere else; beside the running program only where none has.
pub fn helper_place(configured: Option<HelperInvocation>) -> (place: HelperPlace)
    ensures
        place == match configured {
            Some(invocation) => HelperPlace::Configured(invocation),
            None => HelperPlace::BesideProgram,
        },
{
    match configured {
        Some(invocation) => HelperPlace::Configured(invocation),
        None => HelperPlace::BesideProgram,
    }
}

/// Where the helper was looked for, and what was found there.
pub enum HelperProbe {
    /// A caller has said how to start it; the flag tells whether the program exists.
    Configured(HelperInvocation, bool),
    /// The path of the running program could not be learned.
    NoCurrentExe(String),
    /// The running program has no directory.
    NoDirectory,
    /// The place beside the running program; the flag tells whether it exists.
    Sibling(Vec<u8>, bool),
}

impl HelperProbe {
    /// The path that was looked at.
    pub open spec fn path(&self) -> Seq<u8> {
        match self {
            HelperProbe::Configured(invocation, _) => invocation.bin@,
            HelperProbe::Sibling(path, _) => path@,
            _ => seq![],
        }
    }

    /// The probe leads to `found`; the path that was looked at is shown as `shown`.
    pub open spec fn leads_to(
        &self,
        shown: Seq<char>,
        found: Result<HelperInvocation, Error>,
    ) -> bool {
        match self {
            HelperProbe::Configured(invocation, true) => found == Ok::<_, Error>(*invocation),
            HelperProbe::Configured(_, false) => found matches Err(error) && error@
                == ErrorView::Platform("configured helper bin does not exist: "@ + shown),
            HelperProbe::NoCurrentExe(cause) => found matches Err(error) && error@
                == ErrorView::Platform("current_exe failed: "@ + cause@),
            HelperProbe::NoDirectory => found matches Err(error) && error@ == ErrorView::Platform(
                "current_exe has no parent dir"@,
            ),
            HelperProbe::Sibling(path, true) => found matches Ok(invocation) && invocation.bin@
                == path@ && invocation.prefix_args@.len() == 0,
            HelperProbe::Sibling(_, false) => found matches Err(error) && error@
                == ErrorView::Platform(
                "launch-control helper not found at "@ + shown
                    + " (call set_helper_invocation, or deploy the binary as a sibling)"@,
            ),
        }
    }
}

/// How to start the helper.
pub fn resolve_helper(probe: HelperProbe) -> (found: Result<HelperInvocation, Error>)
    ensures
        probe.leads_to(utf8_lossy(probe.path()), found),
{
    let shown: String = match &probe {
        HelperProbe::Configured(invocation, _) => decode_lossy(invocation.bin.as_slice()),
        HelperProbe::Sibling(path, _) => decode_lossy(path.as_slice()),
        _ => String::new(),
    };
    resolve_shown(probe, shown.as_str())
}

/// How to start the helper, where the path that was looked at is shown as `shown`.
pub fn resolve_shown(probe: HelperProbe, shown: &str) -> (found: Result<HelperInvocation, Error>)
    ensures
        probe.leads_to(shown@, found),
{
    match probe {
        HelperProbe::Configured(invocation, exists) => {
            if exists {
                Ok(invocation)
            } else {
                Err(
                    Error::Platform(
                        "configured helper bin does not exist: ".to_string().concat(shown),
                    ),
                )
            }
        },
        HelperProbe::NoCurrentExe(cause) => Err(
            Error::Platform("current_exe failed: ".to_string().concat(cause.as_str())),
        ),
        HelperProbe::NoDirectory => Err(
            Error::Platform("current_exe has no parent dir".to_string()),
        ),
        HelperProbe::Sibling(path, exists) => {
            if exists {
                Ok(HelperInvocation { bin: path, prefix_args: Vec::new() })
            } else {
                Err(
                    Error::Platform(
                        "launch-control helper not found at ".to_string().concat(shown).concat(
                            " (call set_helper_invocation, or deploy the binary as a sibling)",
                        ),
                    ),
                )
            }
        },
    }
}

// ------------------------------------------------------------------- laws

/// Words of different length differ in UTF-8.
proof fn lengths_tell_words_apart(a: &str, b: &str)
    requires
        a@.len() != b@.len(),
    ensures
        word(a) != word(b),
{
    if word(a) == word(b) {
        encoding_tells_texts_apart(a@, b@);
    }
}

/// The words that the helper knows are five different ones.
proof fn words_differ()
    ensures
        word("--background") != word("--bundle"),
        word("--detached") != word("--bundle"),
        word("--detached") != word("--background"),
        word("--url") != word("--bundle"),
        word("--url") != word("--background"),
        word("--url") != word("--detached"),
        word("--") != word("--bundle"),
        word("--") != word("--background"),
        word("--") != word("--detached"),
        word("--") != word("--url"),
{
    reveal_strlit("--bundle");
    reveal_strlit("--background");
    reveal_strlit("--detached");
    reveal_strlit("--url");
    reveal_strlit("--");
    assert("--background"@.len() == 12);
    assert("--detached"@.len() == 10);
    assert("--bundle"@.len() == 8);
    assert("--url"@.len() == 5);
    assert("--"@.len() == 2);
    lengths_tell_words_apart("--background", "--bundle");
    lengths_tell_words_apart("--detached", "--bundle");
    lengths_tell_words_apart("--detached", "--background");
    lengths_tell_words_apart("--url", "--bundle");
    lengths_tell_words_apart("--url", "--background");
    lengths_tell_words_apart("--url", "--detached");
    lengths_tell_words_apart("--", "--bundle");
    lengths_tell_words_apart("--", "--background");
    lengths_tell_words_apart("--", "--detached");
    lengths_tell_words_apart("--", "--url");
}

/// The helper reads exactly the request that it was started for, whatever its
/// paths, its URL and the arguments for the application are.
pub proof fn helper_reads_what_was_asked(request: RequestView)
    requires
        request.bundle is Some,
    ensures
        RequestView::empty().then_read(asks_for(request)) == ParsedView::Request(request),
{
    words_differ();
    let all = asks_for(request);
    let with_bundle = RequestView { bundle: request.bundle, ..RequestView::empty() };
    let rest = all.skip(2);
    assert(all[0] == word("--bundle") && all[1] == request.bundle->0);
    assert(RequestView::empty().then_read(all) == with_bundle.then_read(rest));
    let with_background = RequestView { background: request.background, ..with_bundle };
    let behind_background = if request.background {
        rest.skip(1)
    } else {
        rest
    };
    if request.background {
        assert(rest[0] == word("--background"));
    }
    assert(with_bundle.then_read(rest) == with_background.then_read(behind_background));
    let with_detached = RequestView { detached: request.detached, ..with_background };
    let behind_detached = if request.detached {
        behind_background.skip(1)
    } else {
        behind_background
    };
    if request.detached {
        assert(behind_background[0] == word("--detached"));
    }
    assert(with_background.then_read(behind_background) == with_detached.then_read(
        behind_detached,
    ));
    let with_url = RequestView { url: request.url, ..with_detached };
    let behind_url = if request.url is Some {
        behind_detached.skip(2)
    } else {
        behind_detached
    };
    if request.url is Some {
        assert(behind_detached[0] == word("--url") && behind_detached[1] == request.url->0);
    }
    assert(with_detached.then_read(behind_detached) == with_url.then_read(behind_url));
    if request.app_args.len() > 0 {
        assert(behind_url[0] == word("--"));
        assert(behind_url.skip(1) =~= request.app_args);
    } else {
        assert(behind_url =~= seq![]);
        assert(request.app_args =~= seq![]);
    }
}

/// The application gets its arguments as the last ones, unchanged and in order.
pub proof fn application_gets_its_arguments(
    request: RequestView,
    stdout: Seq<u8>,
    stderr: Seq<u8>,
)
    ensures
        request.app_args.is_suffix_of(launches(request, stdout, stderr)),
{
    let all = launches(request, stdout, stderr);
    assert(all.subrange(all.len() - request.app_args.len(), all.len() as int)
        =~= request.app_args);
}

/// A URL is handed to the launching program before the arguments of the
/// application.
pub proof fn application_gets_its_url(
    request: RequestView,
    url: Seq<u8>,
    stdout: Seq<u8>,
    stderr: Seq<u8>,
)
    requires
        request.url == Some(url),
    ensures
        ({
            let all = launches(request, stdout, stderr);
            let at: int = if request.background {
                9
            } else {
                7
            };
            all.len() >= at + 2 + request.app_args.len() && all[at] == word("-u") && all[at + 1]
                == url
        }),
{
}

/// A word is its letters in UTF-8.
pub proof fn a_word_is_its_letters(text: &str)
    ensures
        word(text) == encode_utf8(text@),
{
}

/// The helper reads its arguments from the front: a flag sets what it stands
/// for, a path or a URL is taken from the argument behind, and two hyphens make
/// all that follows arguments of the application. Nothing else changes.
pub proof fn the_helper_reads_word_by_word(
    read: RequestView,
    value: Seq<u8>,
    rest: Seq<Seq<u8>>,
)
    ensures
        read.then_read(Seq::empty()) == ParsedView::Request(read),
        read.then_read(seq![encode_utf8("--bundle"@), value] + rest) == (RequestView {
            bundle: Some(value),
            ..read
        }).then_read(rest),
        read.then_read(seq![encode_utf8("--url"@), value] + rest) == (RequestView {
            url: Some(value),
            ..read
        }).then_read(rest),
        read.then_read(seq![encode_utf8("--background"@)] + rest) == (RequestView {
            background: true,
            ..read
        }).then_read(rest),
        read.then_read(seq![encode_utf8("--detached"@)] + rest) == (RequestView {
            detached: true,
            ..read
        }).then_read(rest),
        read.then_read(seq![encode_utf8("--"@)] + rest) == ParsedView::Request(
            RequestView { app_args: rest, ..read },
        ),
        read.then_read(seq![encode_utf8("--bundle"@)]) == ParsedView::Request(
            RequestView { bundle: None, ..read },
        ),
        read.then_read(seq![encode_utf8("--url"@)]) == ParsedView::Request(
            RequestView { url: None, ..read },
        ),
        value != encode_utf8("--bundle"@) && value != encode_utf8("--url"@) && value
            != encode_utf8("--background"@) && value != encode_utf8("--detached"@) && value
            != encode_utf8("--"@) ==> read.then_read(seq![value] + rest) == ParsedView::Unknown(
            value,
        ),
{
    words_differ();
    assert((seq![encode_utf8("--bundle"@), value] + rest).skip(2) =~= rest);
    assert((seq![encode_utf8("--url"@), value] + rest).skip(2) =~= rest);
    assert((seq![encode_utf8("--background"@)] + rest).skip(1) =~= rest);
    assert((seq![encode_utf8("--detached"@)] + rest).skip(1) =~= rest);
    assert((seq![encode_utf8("--"@)] + rest).skip(1) =~= rest);
    assert(seq![encode_utf8("--bundle"@)].len() == 1);
    assert(seq![encode_utf8("--url"@)].len() == 1);
    assert((seq![value] + rest)[0] == value);
}

/// Before the first argument is read, nothing is asked for.
pub proof fn nothing_is_asked_for_at_first()
    ensures
        RequestView::empty().bundle is None,
        RequestView::empty().url is None,
        !RequestView::empty().background,
        !RequestView::empty().detached,
        RequestView::empty().app_args.len() == 0,
{
}

/// A request is viewed with everything that it holds.
pub proof fn requests_are_viewed_as_they_are(request: HelperRequest)
    ensures
        request@.bundle == Some(request.bundle@),
        request@.background == request.background,
        request@.detached == request.detached,
        request@.url is Some <==> request.url is Some,
        request.url matches Some(url) ==> request@.url == Some(url@),
        request@.app_args.len() == request.app_args@.len(),
        forall|i: int|
            0 <= i < request.app_args@.len() ==> #[trigger] request@.app_args[i]
                == request.app_args@[i]@,
{
}

/// What the helper is started with, word by word: the bundle, a word for each
/// flag that is set, the URL where there is one, and the arguments of the
/// application behind two hyphens where there are any.
pub proof fn what_the_helper_is_asked(request: RequestView)
    requires
        request.bundle is Some,
    ensures
        ({
            let all = asks_for(request);
            let detached: int = if request.background {
                3
            } else {
                2
            };
            let url: int = if request.detached {
                detached + 1
            } else {
                detached
            };
            let end: int = if request.url is Some {
                url + 2
            } else {
                url
            };
            &&& all[0] == encode_utf8("--bundle"@)
            &&& all[1] == request.bundle->0
            &&& request.background ==> all[2] == encode_utf8("--background"@)
            &&& request.detached ==> all[detached] == encode_utf8("--detached"@)
            &&& request.url is Some ==> all[url] == encode_utf8("--url"@) && all[url + 1]
                == request.url->0
            &&& request.app_args.len() == 0 ==> all.len() == end
            &&& request.app_args.len() > 0 ==> all[end] == encode_utf8("--"@) && all.skip(end + 1)
                == request.app_args
        }),
{
    let all = asks_for(request);
    if request.app_args.len() > 0 {
        assert(all.skip(all.len() - request.app_args.len()) =~= request.app_args);
    }
}

/// What the launching program is given, word by word: a new instance, without
/// the focus and hidden where it goes to the background, the bundle, the two
/// terminals, the URL where there is one, and the arguments of the application
/// where there are any.
pub proof fn what_the_launching_program_is_given(
    request: RequestView,
    stdout: Seq<u8>,
    stderr: Seq<u8>,
)
    requires
        request.bundle is Some,
    ensures
        ({
            let all = launches(request, stdout, stderr);
            let app: int = if request.background {
                3
            } else {
                1
            };
            let end: int = if request.url is Some {
                app + 8
            } else {
                app + 6
            };
            &&& all[0] == encode_utf8("-n"@)
            &&& request.background ==> all[1] == encode_utf8("-g"@) && all[2] == encode_utf8("-j"@)
            &&& all[app] == encode_utf8("-a"@)
            &&& all[app + 1] == request.bundle->0
            &&& all[app + 2] == encode_utf8("--stdout"@)
            &&& all[app + 3] == stdout
            &&& all[app + 4] == encode_utf8("--stderr"@)
            &&& all[app + 5] == stderr
            &&& request.url is Some ==> all[app + 6] == encode_utf8("-u"@) && all[app + 7]
                == request.url->0
            &&& request.app_args.len() == 0 ==> all.len() == end
            &&& request.app_args.len() > 0 ==> all[end] == encode_utf8("--args"@) && all.skip(
                end + 1,
            ) == request.app_args
        }),
{
    let all = launches(request, stdout, stderr);
    if request.app_args.len() > 0 {
        assert(all.skip(all.len() - request.app_args.len()) =~= request.app_args);
    }
}

/// The process in the log is the last that the list names: nothing behind it
/// names one, and there is none only where nothing in the list does.
pub proof fn the_last_process_is_logged(pids: Seq<i32>)
    ensures
        match last_process(pids) {
            Some(pid) => pid > 0 && exists|i: int|
                {
                    &&& 0 <= i < pids.len()
                    &&& #[trigger] pids[i] == pid
                    &&& forall|j: int| i < j < pids.len() ==> #[trigger] pids[j] <= 0
                },
            None => forall|i: int| 0 <= i < pids.len() ==> #[trigger] pids[i] <= 0,
        },
    decreases pids.len(),
{
    if pids.len() > 0 {
        let last = pids.len() - 1;
        if pids.last() > 0 {
            assert(pids[last] == pids.last());
        } else {
            let rest = pids.drop_last();
            the_last_process_is_logged(rest);
            if let Some(pid) = last_process(rest) {
                let i = choose|i: int|
                    {
                        &&& 0 <= i < rest.len()
                        &&& #[trigger] rest[i] == pid
                        &&& forall|j: int| i < j < rest.len() ==> #[trigger] rest[j] <= 0
                    };
                assert(pids[i] == pid);
                assert forall|j: int| i < j < pids.len() implies #[trigger] pids[j] <= 0 by {
                    if j < last {
                        assert(rest[j] <= 0);
                    }
                }
            } else {
                assert forall|i: int| 0 <= i < pids.len() implies #[trigger] pids[i] <= 0 by {
                    if i < last {
                        assert(rest[i] <= 0);
                    }
                }
            }
        }
    }
}

/// Each failure of the helper is put in words of its own, with what it is about.
pub proof fn helper_failures_are_explained(text: String)
    ensures
        HelperFailure::UnknownArg(text).text() == "launch-control: unknown arg: "@ + text@,
        HelperFailure::BundleMissing.text() == "launch-control: --bundle <path> required"@,
        HelperFailure::Pty(Stream::Stdout, text).text()
            == "launch-control: create_pty(stdout) failed: "@ + text@,
        HelperFailure::Pty(Stream::Stderr, text).text()
            == "launch-control: create_pty(stderr) failed: "@ + text@,
        HelperFailure::OpenNotStarted(text).text()
            == "launch-control: failed to spawn /usr/bin/open: "@ + text@,
        HelperFailure::OpenFailed(text).text() == "launch-control: open failed: "@ + text@,
{
}

/// A configured program that exists is started as configured, and one beside the
/// running program with nothing before the arguments of the helper; any other
/// finding is an error that says what is missing and where.
pub proof fn the_helper_is_found_or_explained(
    invocation: HelperInvocation,
    path: Vec<u8>,
    cause: String,
    shown: Seq<char>,
    found: HelperInvocation,
    error: Error,
)
    ensures
        HelperProbe::Configured(invocation, true).leads_to(shown, Ok(found)) <==> found
            == invocation,
        HelperProbe::Sibling(path, true).leads_to(shown, Ok(found)) <==> found.bin@ == path@
            && found.prefix_args@.len() == 0,
        !HelperProbe::Configured(invocation, true).leads_to(shown, Err(error)),
        !HelperProbe::Sibling(path, true).leads_to(shown, Err(error)),
        !HelperProbe::Configured(invocation, false).leads_to(shown, Ok(found)),
        !HelperProbe::Sibling(path, false).leads_to(shown, Ok(found)),
        !HelperProbe::NoCurrentExe(cause).leads_to(shown, Ok(found)),
        !HelperProbe::NoDirectory.leads_to(shown, Ok(found)),
        HelperProbe::Configured(invocation, false).leads_to(shown, Err(error)) <==> error@
            == ErrorView::Platform("configured helper bin does not exist: "@ + shown),
        HelperProbe::Sibling(path, false).leads_to(shown, Err(error)) <==> error@
            == ErrorView::Platform(
            "launch-control helper not found at "@ + shown
                + " (call set_helper_invocation, or deploy the binary as a sibling)"@,
        ),
        HelperProbe::NoCurrentExe(cause).leads_to(shown, Err(error)) <==> error@
            == ErrorView::Platform("current_exe failed: "@ + cause@),
        HelperProbe::NoDirectory.leads_to(shown, Err(error)) <==> error@ == ErrorView::Platform(
            "current_exe has no parent dir"@,
        ),
        HelperProbe::Configured(invocation, true).path() == invocation.bin@,
        HelperProbe::Configured(invocation, false).path() == invocation.bin@,
        HelperProbe::Sibling(path, true).path() == path@,
        HelperProbe::Sibling(path, false).path() == path@,
{
}

/// The helper ends with 2 where it was called wrongly and with 1 where its work
/// failed; the launching program has failed unless it is known to have succeeded.
pub proof fn how_the_helper_ends(
    failure: HelperFailure,
    code: i32,
    success: Option<bool>,
    stderr: &str,
    outcome: Result<(), HelperFailure>,
)
    requires
        call_ensures(HelperFailure::exit_code, (&failure,), code),
        call_ensures(open_outcome, (success, stderr), outcome),
    ensures
        failure is UnknownArg || failure is BundleMissing ==> code == 2,
        failure is Pty || failure is OpenNotStarted || failure is OpenFailed ==> code == 1,
        success == Some(true) ==> outcome is Ok,
        success != Some(true) ==> (outcome matches Err(HelperFailure::OpenFailed(text)) && text@
            == stderr@),
{
}

/// The helper follows the process that started it unless it is detached, or that
/// process is gone already; no process follows the first one of the system.
pub proof fn whom_the_helper_follows(detached: bool, parent: u32, follows: bool)
    requires
        call_ensures(follows_parent, (detached, parent), follows),
    ensures
        follows <==> !detached && parent != 0 && parent != 1,
{
}

/// What a caller has said about the helper always counts; beside the running
/// program it is looked for only where nothing was said.
pub proof fn what_was_said_about_the_helper_counts(
    configured: Option<HelperInvocation>,
    place: HelperPlace,
)
    requires
        call_ensures(helper_place, (configured,), place),
    ensures
        configured matches Some(invocation) ==> place == HelperPlace::Configured(invocation),
        configured is None ==> place is BesideProgram,
{
}

/// The log names the last process of a bundle that has an identifier, and none
/// where the bundle has no identifier or the list names none.
pub proof fn the_log_names_the_last_process(
    bundle_id: &str,
    pids: Vec<i32>,
    pid: Option<i32>,
    i: int,
)
    requires
        call_ensures(logged_process, (bundle_id, &pids), pid),
    ensures
        bundle_id@.len() == 0 ==> pid is None,
        bundle_id@.len() > 0 && 0 <= i < pids@.len() && pids@[i] > 0 && (forall|j: int|
            i < j < pids@.len() ==> #[trigger] pids@[j] <= 0) ==> pid == Some(pids@[i]),
        (forall|j: int| 0 <= j < pids@.len() ==> #[trigger] pids@[j] <= 0) ==> pid is None,
{
    the_last_process_is_logged(pids@);
    if let Some(found) = last_process(pids@) {
        let k = choose|k: int|
            {
                &&& 0 <= k < pids@.len()
                &&& #[trigger] pids@[k] == found
                &&& forall|j: int| k < j < pids@.len() ==> #[trigger] pids@[j] <= 0
            };
        assert(pids@[k] == found);
        if 0 <= i < pids@.len() && pids@[i] > 0 && (forall|j: int|
            i < j < pids@.len() ==> #[trigger] pids@[j] <= 0) {
            if k < i {
                assert(pids@[i] <= 0);
            }
            if i < k {
                assert(pids@[k] <= 0);
            }
        }
    } else if 0 <= i < pids@.len() {
        assert(pids@[i] <= 0);
    }
}

/// A request that was put into arguments comes out of them again as it was,
/// through the calls that do both.
pub proof fn a_request_survives_its_arguments(
    request: HelperRequest,
    prefix: Vec<String>,
    args: Vec<Vec<u8>>,
    parsed: Result<HelperRequest, HelperFailure>,
)
    requires
        prefix@.len() == 0,
        call_ensures(helper_args, (&prefix, &request), args),
        call_ensures(parse_helper_args, (&args,), parsed),
    ensures
        parsed matches Ok(read) && {
            &&& read.bundle@ == request.bundle@
            &&& read.background == request.background
            &&& read.detached == request.detached
            &&& optional_bytes(read.url) == optional_bytes(request.url)
            &&& blobs(read.app_args@) == blobs(request.app_args@)
        },
{
    assert(encoded(texts(prefix@)) + asks_for(request@) =~= asks_for(request@));
    helper_reads_what_was_asked(request@);
    if let Ok(read) = parsed {
        assert(read@ == request@);
        assert(read@.bundle == Some(read.bundle@));
        assert(request@.bundle == Some(request.bundle@));
    }
}

} // verus!
