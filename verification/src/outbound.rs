//! The path from the operator to the device: one decision per line of input.

use vstd::prelude::*;
use vstd::string::*;
use vstd::utf8::*;
use crate::text::{line_feed, same_text, strip_line_feed, without_line_feed};

verus! {

/// The line that ends the session. It is never sent to the device.
pub open spec fn quit_command() -> Seq<char> {
    "q!"@
}

/// What precedes the echoed line in the acknowledgment.
pub open spec fn acknowledgment_prefix() -> Seq<char> {
    "Sent command: "@
}

/// What to do with one read from the operator's input.
#[derive(Debug, PartialEq, Eq)]
pub enum OutboundAction {
    /// Write all of `payload` to the device, then show `acknowledgment` on
    /// the console as a line of its own.
    Send { payload: Vec<u8>, acknowledgment: String },
    /// End the session in good order. Nothing goes to the device.
    Quit,
    /// The operator's input has ended: a fatal error. Nothing goes to the
    /// device.
    EndOfInput,
}

/// The model of an [`OutboundAction`].
pub enum OutboundActionView {
    Send { payload: Seq<u8>, acknowledgment: Seq<char> },
    Quit,
    EndOfInput,
}

impl View for OutboundAction {
    type V = OutboundActionView;

    open spec fn view(&self) -> OutboundActionView {
        match self {
            OutboundAction::Send { payload, acknowledgment } => OutboundActionView::Send {
                payload: payload@,
                acknowledgment: acknowledgment@,
            },
            OutboundAction::Quit => OutboundActionView::Quit,
            OutboundAction::EndOfInput => OutboundActionView::EndOfInput,
        }
    }
}

impl OutboundActionView {
    /// The bytes that this action puts on the device.
    pub open spec fn device_bytes(self) -> Seq<u8> {
        match self {
            OutboundActionView::Send { payload, .. } => payload,
            _ => Seq::empty(),
        }
    }
}

/// The decision for `input`, which is what one read of a line returned: the
/// line with its line feed, or nothing at all when the input has ended.
///
/// The final line feed is taken off, and only that. If `q!` is left, the
/// session ends. Any other line, the empty one too, goes to the device as its
/// UTF-8 bytes, and the console shows `Sent command: ` followed by the line.
pub open spec fn spec_outbound_step(input: Seq<char>) -> OutboundActionView {
    let line = without_line_feed(input);
    if input.len() == 0 {
        OutboundActionView::EndOfInput
    } else if line == quit_command() {
        OutboundActionView::Quit
    } else {
        OutboundActionView::Send {
            payload: encode_utf8(line),
            acknowledgment: acknowledgment_prefix() + line,
        }
    }
}

/// Decides what to do with one read from the operator's input.
pub fn outbound_step(input: &str) -> (action: OutboundAction)
    ensures
        action@ == spec_outbound_step(input@),
{
    if input.is_empty() {
        return OutboundAction::EndOfInput;
    }
    let line = strip_line_feed(input);
    if same_text(line, "q!") {
        OutboundAction::Quit
    } else {
        OutboundAction::Send {
            payload: line.as_bytes_vec(),
            acknowledgment: String::from_str("Sent command: ").concat(line),
        }
    }
}

/// A line other than `q!`, ended by a line feed, reaches the device byte for
/// byte without the line feed, and is acknowledged with its own text.
pub proof fn lemma_line_is_sent_verbatim(line: Seq<char>)
    requires
        line != quit_command(),
    ensures
        spec_outbound_step(line.push(line_feed())) == (OutboundActionView::Send {
            payload: encode_utf8(line),
            acknowledgment: acknowledgment_prefix() + line,
        }),
        spec_outbound_step(line.push(line_feed())).device_bytes() == encode_utf8(line),
{
    let input = line.push(line_feed());
    assert(input.drop_last() =~= line);
}

/// The quit command ends the session whether or not a line feed follows it,
/// and puts nothing on the device. Conversely, whatever is sent is not the
/// quit command.
pub proof fn lemma_quit_never_sent(input: Seq<char>)
    ensures
        spec_outbound_step(quit_command()) == OutboundActionView::Quit,
        spec_outbound_step(quit_command().push(line_feed())) == OutboundActionView::Quit,
        spec_outbound_step(input) is Quit <==> input.len() > 0 && without_line_feed(input)
            == quit_command(),
        !(spec_outbound_step(input) is Send) ==> spec_outbound_step(input).device_bytes()
            == Seq::<u8>::empty(),
        spec_outbound_step(input) is Send ==> spec_outbound_step(input).device_bytes()
            == encode_utf8(without_line_feed(input)) && without_line_feed(input) != quit_command(),
{
    reveal_strlit("q!");
    let quit = quit_command();
    assert(quit.len() == 2 && quit[1] == '!');
    assert(without_line_feed(quit) == quit);
    assert(quit.push(line_feed()).drop_last() =~= quit);
}

/// Where the outbound path stands after a run of reads from the operator.
pub struct OutboundTrace {
    /// Every byte written to the device so far, in order.
    pub device: Seq<u8>,
    /// Every acknowledgment shown on the console so far, in order.
    pub acknowledgments: Seq<Seq<char>>,
    /// Whether the path will read again.
    pub running: bool,
}

/// The outbound path run over `inputs`, first to last, with every write
/// succeeding. Once a step does not send, the path has stopped, and later
/// inputs change nothing.
pub open spec fn spec_run(inputs: Seq<Seq<char>>) -> OutboundTrace
    decreases inputs.len(),
{
    if inputs.len() == 0 {
        OutboundTrace { device: Seq::empty(), acknowledgments: Seq::empty(), running: true }
    } else {
        let before = spec_run(inputs.drop_last());
        match spec_outbound_step(inputs.last()) {
            OutboundActionView::Send { payload, acknowledgment } if before.running => {
                OutboundTrace {
                    device: before.device + payload,
                    acknowledgments: before.acknowledgments.push(acknowledgment),
                    running: true,
                }
            },
            _ => OutboundTrace { running: false, ..before },
        }
    }
}

/// What the operator's input holds when `lines` are typed: each line,
/// followed by a line feed.
pub open spec fn typed(lines: Seq<Seq<char>>) -> Seq<Seq<char>> {
    Seq::new(lines.len(), |i: int| lines[i].push(line_feed()))
}

/// The UTF-8 bytes of `lines`, one after the other with nothing in between.
pub open spec fn bytes_of(lines: Seq<Seq<char>>) -> Seq<u8>
    decreases lines.len(),
{
    if lines.len() == 0 {
        Seq::empty()
    } else {
        bytes_of(lines.drop_last()) + encode_utf8(lines.last())
    }
}

/// The acknowledgments of `lines`, in order.
pub open spec fn acknowledgments_of(lines: Seq<Seq<char>>) -> Seq<Seq<char>> {
    Seq::new(lines.len(), |i: int| acknowledgment_prefix() + lines[i])
}

/// As long as the operator types lines other than `q!`, the device receives
/// exactly their bytes, in order and without the line feeds, the console
/// acknowledges each of them with its own text, and the path goes on.
pub proof fn lemma_typed_lines_reach_device(lines: Seq<Seq<char>>)
    requires
        forall|i: int| 0 <= i < lines.len() ==> #[trigger] lines[i] != quit_command(),
    ensures
        spec_run(typed(lines)).running,
        spec_run(typed(lines)).device == bytes_of(lines),
        spec_run(typed(lines)).acknowledgments == acknowledgments_of(lines),
    decreases lines.len(),
{
    if lines.len() > 0 {
        let earlier = lines.drop_last();
        assert(typed(lines).drop_last() =~= typed(earlier));
        assert(typed(lines).last() == lines.last().push(line_feed()));
        lemma_typed_lines_reach_device(earlier);
        assert(lines[lines.len() - 1] != quit_command());
        lemma_line_is_sent_verbatim(lines.last());
        assert(acknowledgments_of(earlier).push(acknowledgment_prefix() + lines.last())
            =~= acknowledgments_of(lines));
    } else {
        assert(acknowledgments_of(lines) =~= Seq::<Seq<char>>::empty());
    }
}

/// Once the outbound path has stopped, nothing that the operator types
/// reaches the device or is acknowledged.
pub proof fn lemma_stopped_relay_stays_stopped(inputs: Seq<Seq<char>>, later: Seq<Seq<char>>)
    requires
        !spec_run(inputs).running,
    ensures
        spec_run(inputs + later) == spec_run(inputs),
    decreases later.len(),
{
    if later.len() == 0 {
        assert(inputs + later =~= inputs);
    } else {
        assert((inputs + later).drop_last() =~= inputs + later.drop_last());
        lemma_stopped_relay_stays_stopped(inputs, later.drop_last());
    }
}

/// The quit command ends the outbound path for good. Of what the operator
/// typed, the device has received the lines before the quit command and
/// nothing else: not the command itself, and nothing typed after it.
pub proof fn lemma_quit_stops_relay(lines: Seq<Seq<char>>, later: Seq<Seq<char>>)
    requires
        forall|i: int| 0 <= i < lines.len() ==> #[trigger] lines[i] != quit_command(),
    ensures
        !spec_run(typed(lines.push(quit_command())) + later).running,
        spec_run(typed(lines.push(quit_command())) + later).device == bytes_of(lines),
        spec_run(typed(lines.push(quit_command())) + later).acknowledgments == acknowledgments_of(
            lines,
        ),
{
    let inputs = typed(lines.push(quit_command()));
    assert(inputs.drop_last() =~= typed(lines));
    assert(inputs.last() == quit_command().push(line_feed()));
    lemma_typed_lines_reach_device(lines);
    lemma_quit_never_sent(inputs.last());
    lemma_stopped_relay_stays_stopped(inputs, later);
}

} // verus!
