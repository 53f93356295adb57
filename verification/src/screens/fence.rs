//! The fence screen: a list of fences, a base price to mark up, and at most
//! one draft of a fence that is being entered.
//!
//! A draft holds text as it was typed. Only a submit reads it: where every
//! field reads well, a fence is added to the list and the draft is gone;
//! otherwise the draft stays and notes which markup did not read and why.

use vstd::prelude::*;
use vstd::string::StringExecFns;
use crate::decimal::{decimal, decimal_string, lemma_unsigned_of_decimal, parse_unsigned, unsigned_of};
use crate::fence::{human_percentage, lemma_markup_text_reads_back, markup_over_base, markup_text};
use crate::fence::parse_human_percentage;
use crate::fence::{Fence, FenceView, Percentage, PercentageError};

verus! {

/// Which markups of a draft failed to read at the last submit.
#[derive(Debug, Clone, Copy)]
pub struct EditErrors {
    pub lowest: Option<PercentageError>,
    pub average: Option<PercentageError>,
    pub highest: Option<PercentageError>,
}

/// A fence as far as it has been typed in.
#[derive(Debug, Clone)]
pub struct EditDraft {
    pub name: String,
    pub rep: String,
    pub lowest_markup: String,
    pub avg_markup: String,
    pub highest_markup: String,
    pub errors: EditErrors,
}

/// Whether a fence is being entered.
#[derive(Debug, Clone)]
pub enum EditState {
    Idle,
    Editing(EditDraft),
}

/// What the fence screen can report.
#[derive(Debug, Clone)]
pub enum FenceMessage {
    /// The base price was edited; this is the new text.
    BaseInputChanged(String),
    /// The dialog for a new fence is asked for.
    ShowModal,
    /// The dialog is dismissed.
    HideModal,
    /// A field of the draft was edited; each carries the field's new text.
    Name(String),
    Reputation(String),
    Lowest(String),
    Avg(String),
    Highest(String),
    /// An existing fence is taken as the start of a draft.
    Edit(Fence),
    /// The draft is offered as a fence.
    Submit,
}

/// All that the fence screen shows and remembers.
#[derive(Debug)]
pub struct FenceState {
    pub fences: Vec<Fence>,
    pub show_create_fence_modal: bool,
    pub base_price_input: String,
    /// The base price, where the last edit of it read as a number.
    pub parsed_base_price: Option<u64>,
    /// What to say where it did not.
    pub error: Option<String>,
    pub create_fence_state: EditState,
}

/// A draft as plain values.
pub struct DraftView {
    pub name: Seq<char>,
    pub rep: Seq<char>,
    pub lowest_markup: Seq<char>,
    pub avg_markup: Seq<char>,
    pub highest_markup: Seq<char>,
    pub errors: EditErrors,
}

/// The editing state as plain values.
pub enum EditView {
    Idle,
    Editing(DraftView),
}

/// The fence screen's state as plain values.
pub struct FenceStateView {
    pub fences: Seq<FenceView>,
    pub show_create_fence_modal: bool,
    pub base_price_input: Seq<char>,
    pub parsed_base_price: Option<u64>,
    pub error: Option<Seq<char>>,
    pub create_fence_state: EditView,
}

impl View for EditDraft {
    type V = DraftView;

    open spec fn view(&self) -> DraftView {
        DraftView {
            name: self.name@,
            rep: self.rep@,
            lowest_markup: self.lowest_markup@,
            avg_markup: self.avg_markup@,
            highest_markup: self.highest_markup@,
            errors: self.errors,
        }
    }
}

impl View for EditState {
    type V = EditView;

    open spec fn view(&self) -> EditView {
        match self {
            EditState::Idle => EditView::Idle,
            EditState::Editing(draft) => EditView::Editing(draft@),
        }
    }
}

impl View for FenceState {
    type V = FenceStateView;

    open spec fn view(&self) -> FenceStateView {
        FenceStateView {
            fences: self.fences@.map_values(|fence: Fence| fence@),
            show_create_fence_modal: self.show_create_fence_modal,
            base_price_input: self.base_price_input@,
            parsed_base_price: self.parsed_base_price,
            error: match self.error {
                Some(text) => Some(text@),
                None => None,
            },
            create_fence_state: self.create_fence_state@,
        }
    }
}

/// No markup failed to read.
pub open spec fn no_errors() -> EditErrors {
    EditErrors { lowest: None, average: None, highest: None }
}

/// The draft that a new fence starts from: every field empty.
pub open spec fn blank_draft() -> DraftView {
    DraftView {
        name: Seq::empty(),
        rep: Seq::empty(),
        lowest_markup: Seq::empty(),
        avg_markup: Seq::empty(),
        highest_markup: Seq::empty(),
        errors: no_errors(),
    }
}

/// All three markups of `fence` lie at or above the base price, so that what
/// is shown of each tells the percentage.
pub open spec fn markups_shown(fence: FenceView) -> bool {
    &&& fence.lowest_markup >= 1000
    &&& fence.avg_markup >= 1000
    &&& fence.highest_markup >= 1000
}

/// The draft that editing `fence` starts from: each field as it is shown.
/// A markup below the base price is shown as a markup of nothing.
pub open spec fn draft_of(fence: FenceView) -> DraftView {
    DraftView {
        name: fence.name,
        rep: decimal(fence.reputation as nat),
        lowest_markup: markup_text(markup_over_base(fence.lowest_markup)),
        avg_markup: markup_text(markup_over_base(fence.avg_markup)),
        highest_markup: markup_text(markup_over_base(fence.highest_markup)),
        errors: no_errors(),
    }
}

/// The error in a reading, if it is one.
pub open spec fn error_of(reading: Result<nat, PercentageError>) -> Option<PercentageError> {
    match reading {
        Ok(_) => None,
        Err(error) => Some(error),
    }
}

/// The fence that `draft` spells, if its reputation and its three markups
/// all read.
pub open spec fn fence_of(draft: DraftView) -> Option<FenceView> {
    match (
        unsigned_of(draft.rep, 255),
        human_percentage(draft.lowest_markup),
        human_percentage(draft.avg_markup),
        human_percentage(draft.highest_markup),
    ) {
        (Some(reputation), Ok(lowest_markup), Ok(avg_markup), Ok(highest_markup)) => Some(
            FenceView {
                name: draft.name,
                reputation: reputation as u8,
                lowest_markup,
                avg_markup,
                highest_markup,
            },
        ),
        _ => None,
    }
}

/// `draft` with the errors that reading its three markups gives.
pub open spec fn checked(draft: DraftView) -> DraftView {
    DraftView {
        errors: EditErrors {
            lowest: error_of(human_percentage(draft.lowest_markup)),
            average: error_of(human_percentage(draft.avg_markup)),
            highest: error_of(human_percentage(draft.highest_markup)),
        },
        ..draft
    }
}

/// `state` with its draft, if it has one, replaced by `change` of it.
pub open spec fn with_draft(
    state: FenceStateView,
    change: spec_fn(DraftView) -> DraftView,
) -> FenceStateView {
    match state.create_fence_state {
        EditView::Idle => state,
        EditView::Editing(draft) => FenceStateView {
            create_fence_state: EditView::Editing(change(draft)),
            ..state
        },
    }
}

/// The state that follows `state` on `message`.
pub open spec fn fence_step(state: FenceStateView, message: FenceMessage) -> FenceStateView {
    match message {
        FenceMessage::BaseInputChanged(input) => match unsigned_of(input@, u64::MAX as nat) {
            Some(price) => FenceStateView {
                base_price_input: input@,
                parsed_base_price: Some(price as u64),
                error: None,
                ..state
            },
            None => FenceStateView {
                base_price_input: input@,
                parsed_base_price: None,
                error: Some("Invalid number"@),
                ..state
            },
        },
        FenceMessage::Name(name) => with_draft(
            state,
            |draft: DraftView| DraftView { name: name@, ..draft },
        ),
        FenceMessage::Reputation(rep) => with_draft(
            state,
            |draft: DraftView| DraftView { rep: rep@, ..draft },
        ),
        FenceMessage::Lowest(low) => with_draft(
            state,
            |draft: DraftView| DraftView { lowest_markup: low@, ..draft },
        ),
        FenceMessage::Avg(avg) => with_draft(
            state,
            |draft: DraftView| DraftView { avg_markup: avg@, ..draft },
        ),
        FenceMessage::Highest(high) => with_draft(
            state,
            |draft: DraftView| DraftView { highest_markup: high@, ..draft },
        ),
        FenceMessage::ShowModal => FenceStateView {
            show_create_fence_modal: true,
            create_fence_state: match state.create_fence_state {
                EditView::Idle => EditView::Editing(blank_draft()),
                EditView::Editing(draft) => EditView::Editing(draft),
            },
            ..state
        },
        FenceMessage::Edit(fence) => match state.create_fence_state {
            EditView::Idle => FenceStateView {
                create_fence_state: EditView::Editing(draft_of(fence@)),
                ..state
            },
            EditView::Editing(_) => state,
        },
        FenceMessage::HideModal => FenceStateView {
            show_create_fence_modal: false,
            create_fence_state: EditView::Idle,
            ..state
        },
        FenceMessage::Submit => match state.create_fence_state {
            EditView::Idle => state,
            EditView::Editing(draft) => match fence_of(draft) {
                Some(fence) => FenceStateView {
                    fences: state.fences.push(fence),
                    show_create_fence_modal: false,
                    create_fence_state: EditView::Idle,
                    ..state
                },
                None => FenceStateView {
                    create_fence_state: EditView::Editing(checked(draft)),
                    ..state
                },
            },
        },
    }
}

/// A fence that is taken as a draft and offered again unchanged reads as the
/// same fence.
pub proof fn lemma_draft_reads_back(fence: FenceView)
    requires
        markups_shown(fence),
        fence.lowest_markup <= 10_000,
        fence.avg_markup <= 10_000,
        fence.highest_markup <= 10_000,
    ensures
        fence_of(draft_of(fence)) == Some(fence),
{
    lemma_unsigned_of_decimal(fence.reputation as nat, 255);
    lemma_markup_text_reads_back((fence.lowest_markup - 1000) as nat);
    lemma_markup_text_reads_back((fence.avg_markup - 1000) as nat);
    lemma_markup_text_reads_back((fence.highest_markup - 1000) as nat);
}

/// Every fence that a draft spells has markups that can be shown, and so can
/// be taken as a draft again.
pub proof fn lemma_fence_of_draft_is_shown(draft: DraftView)
    requires
        fence_of(draft) is Some,
    ensures
        markups_shown(fence_of(draft)->Some_0),
        fence_of(draft)->Some_0.lowest_markup <= 10_000,
        fence_of(draft)->Some_0.avg_markup <= 10_000,
        fence_of(draft)->Some_0.highest_markup <= 10_000,
{
}

/// The error in a parsed percentage, if it is one.
fn error_in(reading: &Result<Percentage, PercentageError>) -> (r: Option<PercentageError>)
    ensures
        r == match *reading {
            Ok(_) => None,
            Err(error) => Some(error),
        },
{
    match reading {
        Ok(_) => None,
        Err(error) => Some(*error),
    }
}

impl EditDraft {
    /// A draft with every field empty.
    pub fn blank() -> (r: EditDraft)
        ensures
            r@ == blank_draft(),
    {
        EditDraft {
            name: String::new(),
            rep: String::new(),
            lowest_markup: String::new(),
            avg_markup: String::new(),
            highest_markup: String::new(),
            errors: EditErrors { lowest: None, average: None, highest: None },
        }
    }

    /// The draft that editing `fence` starts from.
    pub fn from_fence(fence: Fence) -> (r: EditDraft)
        ensures
            r@ == draft_of(fence@),
    {
        let rep = decimal_string(fence.reputation as u64);
        let lowest_markup = fence.lowest_markup.to_string();
        let avg_markup = fence.avg_markup.to_string();
        let highest_markup = fence.highest_markup.to_string();
        EditDraft {
            name: fence.name,
            rep,
            lowest_markup,
            avg_markup,
            highest_markup,
            errors: EditErrors { lowest: None, average: None, highest: None },
        }
    }
}

/// The fence screen as it opens: the default fence and one called Dave, a
/// base price of nothing, no dialog.
pub open spec fn opening_fences() -> FenceStateView {
    FenceStateView {
        fences: seq![
            FenceView {
                name: Seq::empty(),
                reputation: 0,
                lowest_markup: 1080,
                avg_markup: 1100,
                highest_markup: 1205,
            },
            FenceView {
                name: "Dave"@,
                reputation: 10,
                lowest_markup: 1050,
                avg_markup: 1125,
                highest_markup: 1250,
            },
        ],
        show_create_fence_modal: false,
        base_price_input: Seq::empty(),
        parsed_base_price: Some(0),
        error: None,
        create_fence_state: EditView::Idle,
    }
}

impl Default for FenceState {
    /// The screen as it opens.
    fn default() -> (r: FenceState)
        ensures
            r@ == opening_fences(),
    {
        let mut fences: Vec<Fence> = Vec::new();
        fences.push(Fence::default());
        let lowest = Percentage::try_new(1050);
        let average = Percentage::try_new(1125);
        let highest = Percentage::try_new(1250);
        fences.push(
            Fence::new(
                String::from_str("Dave"),
                10,
                lowest.unwrap(),
                average.unwrap(),
                highest.unwrap(),
            ),
        );
        let r = FenceState {
            fences,
            show_create_fence_modal: false,
            base_price_input: String::new(),
            parsed_base_price: Some(0),
            error: None,
            create_fence_state: EditState::Idle,
        };
        assert(r@.fences =~= seq![r.fences@[0]@, r.fences@[1]@]);
        r
    }
}

impl FenceState {
    /// Takes `message` in: the state afterwards is [`fence_step`] of the
    /// state before, whatever the message and the state.
    pub fn update(&mut self, message: FenceMessage)
        ensures
            final(self)@ == fence_step(old(self)@, message),
    {
        match message {
            FenceMessage::BaseInputChanged(input) => {
                match parse_unsigned(input.as_str(), u64::MAX) {
                    Some(value) => {
                        self.parsed_base_price = Some(value);
                        self.error = None;
                    },
                    None => {
                        self.parsed_base_price = None;
                        self.error = Some(String::from_str("Invalid number"));
                    },
                }
                self.base_price_input = input;
            },
            FenceMessage::Name(name) => {
                if let EditState::Editing(draft) = &mut self.create_fence_state {
                    draft.name = name;
                }
            },
            FenceMessage::Reputation(rep) => {
                if let EditState::Editing(draft) = &mut self.create_fence_state {
                    draft.rep = rep;
                }
            },
            FenceMessage::Lowest(low) => {
                if let EditState::Editing(draft) = &mut self.create_fence_state {
                    draft.lowest_markup = low;
                }
            },
            FenceMessage::Avg(avg) => {
                if let EditState::Editing(draft) = &mut self.create_fence_state {
                    draft.avg_markup = avg;
                }
            },
            FenceMessage::Highest(high) => {
                if let EditState::Editing(draft) = &mut self.create_fence_state {
                    draft.highest_markup = high;
                }
            },
            FenceMessage::ShowModal => {
                if let EditState::Idle = self.create_fence_state {
                    self.create_fence_state = EditState::Editing(EditDraft::blank());
                }
                self.show_create_fence_modal = true;
            },
            FenceMessage::Edit(fence) => {
                if let EditState::Idle = self.create_fence_state {
                    self.create_fence_state = EditState::Editing(EditDraft::from_fence(fence));
                }
            },
            FenceMessage::HideModal => {
                self.show_create_fence_modal = false;
                self.create_fence_state = EditState::Idle;
            },
            FenceMessage::Submit => {
                if let EditState::Editing(draft) = &mut self.create_fence_state {
                    let lowest = parse_human_percentage(draft.lowest_markup.as_str());
                    let average = parse_human_percentage(draft.avg_markup.as_str());
                    let highest = parse_human_percentage(draft.highest_markup.as_str());
                    draft.errors = EditErrors {
                        lowest: error_in(&lowest),
                        average: error_in(&average),
                        highest: error_in(&highest),
                    };
                    let reputation = parse_unsigned(draft.rep.as_str(), 255);
                    match (reputation, lowest, average, highest) {
                        (Some(rep), Ok(lowest), Ok(average), Ok(highest)) => {
                            let new_fence = Fence {
                                name: draft.name.clone(),
                                reputation: rep as u8,
                                lowest_markup: lowest,
                                avg_markup: average,
                                highest_markup: highest,
                            };
                            proof {
                                self.fences@.lemma_push_map_commute(
                                    |fence: Fence| fence@,
                                    new_fence,
                                );
                            }
                            self.fences.push(new_fence);
                            self.show_create_fence_modal = false;
                            self.create_fence_state = EditState::Idle;
                        },
                        _ => {},
                    }
                }
            },
        }
    }
}

} // verus!
