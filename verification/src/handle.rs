//! Engine session: one embedded engine instance bound to one surface.
//!
//! The engine runs behind its own scheduler; this crate never calls into
//! it directly. A session instead appends [`EngineCommand`]s to a log that
//! the embedder replays into the real engine, in order: that keeps the
//! decision — what to tell the engine, and when — verified, while the
//! engine itself stays an external collaborator. The one value the engine
//! feeds back at session start, the browsing-context identifier it
//! assigned, is a parameter of [`ServoHandle::start_servo`].

use vstd::prelude::*;

verus! {

broadcast use vstd::seq_lib::group_seq_properties, vstd::prelude::Seq::lemma_push_map_commute;

/// Whether the engine's URL parser accepts the string as an absolute URL.
/// The parser's grammar takes pages to state; the name pins down only
/// that acceptance is a function of the string alone.
pub uninterp spec fn url_parses(s: Seq<char>) -> bool;

/// Relies on `url::Url::parse`, the parser behind the engine's URL type:
/// with no base URL and default options, whether parsing succeeds depends
/// on the input string alone.
#[verifier::external_body]
pub(crate) fn parse_url_ok(s: &str) -> (r: bool)
    ensures
        r == url_parses(s@),
{
    url::Url::parse(s).is_ok()
}

/// Why a navigation request was refused.
#[derive(Clone, Copy, Debug, PartialEq, Eq, Structural)]
pub enum NavigationError {
    /// The address does not parse as an absolute URL; the engine was not
    /// told anything.
    InvalidUrl,
}

/// One command towards the embedded engine, as the embedder must replay
/// it. Context identifiers are browsing-context ids the engine assigned.
#[derive(Clone, Debug, PartialEq, Eq)]
pub enum EngineCommand {
    /// Create a browsing context and load `url` into it.
    NewBrowser { url: String },
    /// Select the context as the active one.
    SelectBrowser { context: u64 },
    /// Load `url` into the context.
    LoadUrl { context: u64, url: String },
    /// Deliver one translated host input event.
    ForwardInput { event: u32 },
    /// Let the engine run one scheduling pass with no new events, so it
    /// can lay out, run scripts and composite on its own schedule.
    Pump,
}

/// Mathematical image of [`EngineCommand`].
pub ghost enum CommandView {
    NewBrowser { url: Seq<char> },
    SelectBrowser { context: u64 },
    LoadUrl { context: u64, url: Seq<char> },
    ForwardInput { event: u32 },
    Pump,
}

impl View for EngineCommand {
    type V = CommandView;

    open spec fn view(&self) -> CommandView {
        match self {
            EngineCommand::NewBrowser { url } => CommandView::NewBrowser { url: url@ },
            EngineCommand::SelectBrowser { context } => CommandView::SelectBrowser {
                context: *context,
            },
            EngineCommand::LoadUrl { context, url } => CommandView::LoadUrl {
                context: *context,
                url: url@,
            },
            EngineCommand::ForwardInput { event } => CommandView::ForwardInput { event: *event },
            EngineCommand::Pump => CommandView::Pump,
        }
    }
}

/// Mathematical image of [`ServoHandle`].
pub ghost struct HandleView {
    pub id: u64,
    pub active: u64,
    pub log: Seq<CommandView>,
}

/// One running engine session: the browsing context belonging to one
/// surface, the context the engine currently has selected as active, and
/// the command log the embedder replays into the engine.
#[derive(Clone, Debug, PartialEq, Eq)]
pub struct ServoHandle {
    /// The browsing context the engine assigned to this surface.
    pub id: u64,
    /// The context currently selected as active.
    pub active: u64,
    /// Every command issued so far, for the embedder to replay.
    pub log: Vec<EngineCommand>,
}

impl View for ServoHandle {
    type V = HandleView;

    open spec fn view(&self) -> HandleView {
        HandleView {
            id: self.id,
            active: self.active,
            log: self.log@.map_values(|c: EngineCommand| c@),
        }
    }
}

impl ServoHandle {
    /// Start the engine session for one surface: create a browsing
    /// context loading `url` and select it as active. The engine assigns
    /// the context identifier; the embedder passes it in as `context`.
    ///
    /// The initial address must be one the engine's parser accepts: the
    /// engine cannot come up without a document to load, and an engine
    /// that cannot initialize is fatal to the process, not to a surface.
    pub fn start_servo(url: &str, context: u64) -> (h: ServoHandle)
        requires
            url_parses(url@),
        ensures
            h@ == (HandleView {
                id: context,
                active: context,
                log: seq![
                    CommandView::NewBrowser { url: url@ },
                    CommandView::SelectBrowser { context },
                ],
            }),
    {
        let mut log: Vec<EngineCommand> = Vec::new();
        log.push(EngineCommand::NewBrowser { url: url.to_owned() });
        log.push(EngineCommand::SelectBrowser { context });
        let h = ServoHandle { id: context, active: context, log };
        proof {
            assert(h@.log =~= seq![
                CommandView::NewBrowser { url: url@ },
                CommandView::SelectBrowser { context },
            ]);
        }
        h
    }

    /// Navigate this session's context to `url`. An address the parser
    /// refuses is reported as `InvalidUrl` and the engine is not touched:
    /// no load command is issued and the active context stays as it was.
    pub fn navigate(&mut self, url: &str) -> (r: Result<(), NavigationError>)
        ensures
            r is Ok <==> url_parses(url@),
            r is Err ==> r == Err::<(), NavigationError>(NavigationError::InvalidUrl),
            url_parses(url@) ==> final(self)@ == (HandleView {
                log: old(self)@.log.push(
                    CommandView::LoadUrl { context: old(self).id, url: url@ },
                ),
                ..old(self)@
            }),
            !url_parses(url@) ==> *final(self) == *old(self),
    {
        if parse_url_ok(url) {
            let context = self.id;
            self.log.push(EngineCommand::LoadUrl { context, url: url.to_owned() });
            proof {
                assert(final(self)@.log =~= old(self)@.log.push(
                    CommandView::LoadUrl { context: old(self).id, url: url@ },
                ));
            }
            Ok(())
        } else {
            Err(NavigationError::InvalidUrl)
        }
    }

    /// Deliver no events and let the engine run one scheduling pass, so
    /// it can repaint on its own schedule.
    pub fn update(&mut self)
        ensures
            final(self)@ == (HandleView {
                log: old(self)@.log.push(CommandView::Pump),
                ..old(self)@
            }),
    {
        self.log.push(EngineCommand::Pump);
        proof {
            assert(final(self)@.log =~= old(self)@.log.push(CommandView::Pump));
        }
    }

    /// Deliver a batch of translated input events into the engine and let
    /// it run one scheduling pass, so it can lay out, run scripts and
    /// composite.
    pub fn pump(&mut self, events: &Vec<u32>)
        ensures
            final(self)@ == (HandleView {
                log: old(self)@.log + events@.map_values(
                    |e: u32| CommandView::ForwardInput { event: e },
                ).push(CommandView::Pump),
                ..old(self)@
            }),
    {
        let ghost orig = self@;
        proof {
            assert(orig.log + events@.take(0).map_values(
                |e: u32| CommandView::ForwardInput { event: e },
            ) =~= orig.log);
        }
        let n = events.len();
        let mut i: usize = 0;
        while i < n
            invariant
                i <= n,
                n == events@.len(),
                self@.id == orig.id,
                self@.active == orig.active,
                self@.log == orig.log + events@.take(i as int).map_values(
                    |e: u32| CommandView::ForwardInput { event: e },
                ),
            decreases n - i,
        {
            self.forward_input(events[i]);
            proof {
                assert(events@.take(i as int + 1) =~= events@.take(i as int).push(
                    events@[i as int],
                ));
                assert(self@.log =~= orig.log + events@.take(i as int + 1).map_values(
                    |e: u32| CommandView::ForwardInput { event: e },
                ));
            }
            i = i + 1;
        }
        proof {
            assert(events@.take(n as int) =~= events@);
        }
        self.update();
        proof {
            assert(self@.log =~= orig.log + events@.map_values(
                |e: u32| CommandView::ForwardInput { event: e },
            ).push(CommandView::Pump));
        }
    }

    /// Forward one translated host input event into the engine.
    pub fn forward_input(&mut self, event: u32)
        ensures
            final(self)@ == (HandleView {
                log: old(self)@.log.push(CommandView::ForwardInput { event }),
                ..old(self)@
            }),
    {
        self.log.push(EngineCommand::ForwardInput { event });
        proof {
            assert(final(self)@.log =~= old(self)@.log.push(CommandView::ForwardInput { event }));
        }
    }
}

} // verus!
