//! The outcome of executing a transaction, as recorded and as shown to
//! clients.

use crate::encoding::UiTransactionEncoding;
use crate::instruction::{
    compiled_inner, parsed_inner, show_inner_compiled, show_inner_parsed, InnerInstructions,
    InnerInstructionsView, UiInnerInstructions, UiInnerInstructionsView,
};
use crate::model::{all_indices_below, Message, Pubkey};
use crate::parse_instruction::{ParserRegistry, ProgramParserView};
use crate::parse_system::builtin_parsers;
use solana_sdk::transaction::TransactionError;
use vstd::prelude::*;

verus! {

/// The ledger's reasons for rejecting a transaction. The library carries a
/// reason through without looking inside.
#[verifier::external_type_specification]
#[verifier::external_body]
pub struct ExTransactionError(TransactionError);

/// `Clone::clone` of std's `Result`, which the derived `Clone` of the
/// outcome types calls. Nothing is claimed of the copy.
pub assume_specification<T, E>[ <Result<T, E> as Clone>::clone ](_0: &Result<T, E>) -> Result<T, E>
    where E: Clone, T: Clone
;

/// Calls `clone` on a `TransactionError`. Trusted: the copy equals the
/// value that was cloned.
#[verifier::external_body]
pub(crate) fn clone_error(error: &TransactionError) -> (copy: TransactionError)
    ensures
        copy == *error,
{
    error.clone()
}

/// The recorded outcome of a transaction. Inner instructions and log
/// messages are absent where they were not recorded.
#[derive(Clone, Debug, PartialEq)]
pub struct TransactionStatusMeta {
    pub status: Result<(), TransactionError>,
    pub fee: u64,
    pub pre_balances: Vec<u64>,
    pub post_balances: Vec<u64>,
    pub inner_instructions: Option<Vec<InnerInstructions>>,
    pub log_messages: Option<Vec<String>>,
}

/// Mathematical value of a [`TransactionStatusMeta`].
pub struct TransactionStatusMetaView {
    pub status: Result<(), TransactionError>,
    pub fee: u64,
    pub pre_balances: Seq<u64>,
    pub post_balances: Seq<u64>,
    pub inner_instructions: Option<Seq<InnerInstructionsView>>,
    pub log_messages: Option<Seq<Seq<char>>>,
}

impl View for TransactionStatusMeta {
    type V = TransactionStatusMetaView;

    open spec fn view(&self) -> TransactionStatusMetaView {
        TransactionStatusMetaView {
            status: self.status,
            fee: self.fee,
            pre_balances: self.pre_balances@,
            post_balances: self.post_balances@,
            inner_instructions: self.inner_instructions.deep_view(),
            log_messages: self.log_messages.deep_view(),
        }
    }
}

impl DeepView for TransactionStatusMeta {
    type V = TransactionStatusMetaView;

    open spec fn deep_view(&self) -> TransactionStatusMetaView {
        self@
    }
}

impl TransactionStatusMetaView {
    /// There is one balance before and one after for each of `n` accounts.
    pub open spec fn balances_match(self, n: nat) -> bool {
        self.pre_balances.len() == n && self.post_balances.len() == n
    }

    /// Every recorded inner instruction names only positions of an account
    /// list of `n` entries.
    pub open spec fn indices_below(self, n: nat) -> bool {
        self.inner_instructions matches Some(list) ==> forall|i: int|
            0 <= i < list.len() ==> (#[trigger] list[i]).indices_below(n)
    }
}

impl TransactionStatusMeta {
    /// Whether every recorded inner instruction names only positions of an
    /// account list of `n` entries.
    pub fn indices_below(&self, n: usize) -> (valid: bool)
        ensures
            valid == self@.indices_below(n as nat),
    {
        match &self.inner_instructions {
            None => true,
            Some(list) => {
                let mut i: usize = 0;
                while i < list.len()
                    invariant
                        i <= list.len(),
                        self.inner_instructions == Some(*list),
                        forall|j: int|
                            0 <= j < i ==> (#[trigger] list.deep_view()[j]).indices_below(
                                n as nat,
                            ),
                    decreases list.len() - i,
                {
                    assert(list.deep_view()[i as int] == list[i as int]@);
                    let group = &list[i].instructions;
                    assert(list[i as int]@.instructions == group.deep_view());
                    if !all_indices_below(group, n) {
                        proof {
                            let k = choose|k: int|
                                0 <= k < group.len() && !(#[trigger] group.deep_view()[k]).indices_below(
                                    n as nat,
                                );
                            assert(!list[i as int]@.instructions[k].indices_below(n as nat));
                            assert(!list.deep_view()[i as int].indices_below(n as nat));
                            assert(self@.inner_instructions == Some(list.deep_view()));
                            let recorded = self@.inner_instructions->0;
                            assert(0 <= i < recorded.len());
                            assert(!recorded[i as int].indices_below(n as nat));
                            assert(!self@.indices_below(n as nat));
                        }
                        return false;
                    }
                    i += 1;
                }
                true
            },
        }
    }
}

impl Default for TransactionStatusMeta {
    /// A successful outcome without fee, balances, inner instructions or
    /// log messages.
    fn default() -> (meta: TransactionStatusMeta)
        ensures
            meta@ == (TransactionStatusMetaView {
                status: Ok(()),
                fee: 0,
                pre_balances: Seq::empty(),
                post_balances: Seq::empty(),
                inner_instructions: None,
                log_messages: None,
            }),
    {
        TransactionStatusMeta {
            status: Ok(()),
            fee: 0,
            pre_balances: Vec::new(),
            post_balances: Vec::new(),
            inner_instructions: None,
            log_messages: None,
        }
    }
}

/// The outcome of a transaction as shown to clients: the error, if any, is
/// a field of its own beside the status that it is derived from.
#[derive(Clone, Debug, PartialEq)]
pub struct UiTransactionStatusMeta {
    pub err: Option<TransactionError>,
    pub status: Result<(), TransactionError>,
    pub fee: u64,
    pub pre_balances: Vec<u64>,
    pub post_balances: Vec<u64>,
    pub inner_instructions: Option<Vec<UiInnerInstructions>>,
    pub log_messages: Option<Vec<String>>,
}

/// Mathematical value of a [`UiTransactionStatusMeta`].
pub struct UiTransactionStatusMetaView {
    pub err: Option<TransactionError>,
    pub status: Result<(), TransactionError>,
    pub fee: u64,
    pub pre_balances: Seq<u64>,
    pub post_balances: Seq<u64>,
    pub inner_instructions: Option<Seq<UiInnerInstructionsView>>,
    pub log_messages: Option<Seq<Seq<char>>>,
}

impl View for UiTransactionStatusMeta {
    type V = UiTransactionStatusMetaView;

    open spec fn view(&self) -> UiTransactionStatusMetaView {
        UiTransactionStatusMetaView {
            err: self.err,
            status: self.status,
            fee: self.fee,
            pre_balances: self.pre_balances@,
            post_balances: self.post_balances@,
            inner_instructions: self.inner_instructions.deep_view(),
            log_messages: self.log_messages.deep_view(),
        }
    }
}

impl DeepView for UiTransactionStatusMeta {
    type V = UiTransactionStatusMetaView;

    open spec fn deep_view(&self) -> UiTransactionStatusMetaView {
        self@
    }
}

/// The error of a status: absent for success.
pub open spec fn status_err(status: Result<(), TransactionError>) -> Option<TransactionError> {
    match status {
        Ok(_) => None,
        Err(e) => Some(e),
    }
}

/// Each group of inner instructions in its display form: by address when
/// `parse` holds, by position otherwise.
pub open spec fn ui_inner_list(
    parsers: Seq<ProgramParserView>,
    list: Seq<InnerInstructionsView>,
    account_keys: Seq<Seq<u8>>,
    parse: bool,
) -> Seq<UiInnerInstructionsView> {
    Seq::new(
        list.len(),
        |i: int|
            if parse {
                parsed_inner(parsers, list[i], account_keys)
            } else {
                compiled_inner(list[i])
            },
    )
}

/// The outcome as shown to clients. Fee, balances and log messages are
/// those of the record; inner instructions and log messages are absent
/// exactly where the record has none.
pub open spec fn ui_meta(
    parsers: Seq<ProgramParserView>,
    meta: TransactionStatusMetaView,
    account_keys: Seq<Seq<u8>>,
    parse: bool,
) -> UiTransactionStatusMetaView {
    UiTransactionStatusMetaView {
        err: status_err(meta.status),
        status: meta.status,
        fee: meta.fee,
        pre_balances: meta.pre_balances,
        post_balances: meta.post_balances,
        inner_instructions: match meta.inner_instructions {
            None => None,
            Some(list) => Some(ui_inner_list(parsers, list, account_keys, parse)),
        },
        log_messages: meta.log_messages,
    }
}

fn copy_status(status: &Result<(), TransactionError>) -> (copy: Result<(), TransactionError>)
    ensures
        copy == *status,
{
    match status {
        Ok(unit) => Ok(*unit),
        Err(e) => Err(clone_error(e)),
    }
}

fn copy_messages(messages: &Vec<String>) -> (copy: Vec<String>)
    ensures
        copy.deep_view() == messages.deep_view(),
{
    let mut copy: Vec<String> = Vec::new();
    let mut i: usize = 0;
    while i < messages.len()
        invariant
            i <= messages.len(),
            copy.len() == i,
            forall|j: int| 0 <= j < i ==> (#[trigger] copy[j])@ == messages[j]@,
        decreases messages.len() - i,
    {
        copy.push(messages[i].clone());
        i += 1;
    }
    assert(copy.deep_view() =~= messages.deep_view());
    copy
}

fn show_inner_list(
    list: &Vec<InnerInstructions>,
    account_keys: &Vec<Pubkey>,
    registry: &ParserRegistry,
    parse: bool,
) -> (shown: Vec<UiInnerInstructions>)
    requires
        parse ==> forall|i: int|
            0 <= i < list.len() ==> (#[trigger] list.deep_view()[i]).indices_below(
                account_keys.len() as nat,
            ),
    ensures
        shown.deep_view() == ui_inner_list(
            registry@,
            list.deep_view(),
            account_keys.deep_view(),
            parse,
        ),
{
    let mut shown: Vec<UiInnerInstructions> = Vec::new();
    let mut i: usize = 0;
    while i < list.len()
        invariant
            i <= list.len(),
            shown.len() == i,
            parse ==> forall|i: int|
                0 <= i < list.len() ==> (#[trigger] list.deep_view()[i]).indices_below(
                    account_keys.len() as nat,
                ),
            forall|j: int|
                0 <= j < i ==> (#[trigger] shown[j])@ == ui_inner_list(
                    registry@,
                    list.deep_view(),
                    account_keys.deep_view(),
                    parse,
                )[j],
        decreases list.len() - i,
    {
        assert(list.deep_view()[i as int] == list[i as int]@);
        let ui = if parse {
            show_inner_parsed(&list[i], account_keys, registry)
        } else {
            show_inner_compiled(&list[i])
        };
        shown.push(ui);
        i += 1;
    }
    assert(shown.deep_view() =~= ui_inner_list(
        registry@,
        list.deep_view(),
        account_keys.deep_view(),
        parse,
    ));
    shown
}

/// Shows a recorded outcome without consuming it.
pub(crate) fn show_meta(
    meta: &TransactionStatusMeta,
    account_keys: &Vec<Pubkey>,
    registry: &ParserRegistry,
    parse: bool,
) -> (ui: UiTransactionStatusMeta)
    requires
        parse ==> meta@.indices_below(account_keys.len() as nat),
    ensures
        ui@ == ui_meta(registry@, meta@, account_keys.deep_view(), parse),
{
    let err = match &meta.status {
        Ok(_) => None,
        Err(e) => Some(clone_error(e)),
    };
    let inner_instructions = match &meta.inner_instructions {
        None => None,
        Some(list) => Some(show_inner_list(list, account_keys, registry, parse)),
    };
    let log_messages = match &meta.log_messages {
        None => None,
        Some(messages) => Some(copy_messages(messages)),
    };
    UiTransactionStatusMeta {
        err,
        status: copy_status(&meta.status),
        fee: meta.fee,
        pre_balances: meta.pre_balances.clone(),
        post_balances: meta.post_balances.clone(),
        inner_instructions,
        log_messages,
    }
}

impl UiTransactionStatusMeta {
    /// Shows a recorded outcome with its inner instructions by address,
    /// against the account list of `message`, consulting the decoders of the
    /// known programs.
    pub fn parse(meta: TransactionStatusMeta, message: &Message) -> (ui: UiTransactionStatusMeta)
        requires
            meta@.indices_below(message.account_keys.len() as nat),
        ensures
            ui@ == ui_meta(builtin_parsers(), meta@, message@.account_keys, true),
    {
        let registry = ParserRegistry::builtin();
        show_meta(&meta, &message.account_keys, &registry, true)
    }

    /// Shows a recorded outcome with its inner instructions by position.
    pub fn from(meta: TransactionStatusMeta) -> (ui: UiTransactionStatusMeta)
        ensures
            ui@ == ui_meta(Seq::empty(), meta@, Seq::empty(), false),
    {
        let registry = ParserRegistry::new();
        let no_keys: Vec<Pubkey> = Vec::new();
        assert(no_keys.deep_view() =~= Seq::<Seq<u8>>::empty());
        show_meta(&meta, &no_keys, &registry, false)
    }
}

impl TransactionStatusMeta {
    /// Shows a recorded outcome in the way that goes with `encoding`: inner
    /// instructions by address for the parsed display form, by position for
    /// every other format.
    pub fn encode(self, encoding: UiTransactionEncoding, message: &Message) -> (ui:
        UiTransactionStatusMeta)
        requires
            encoding == UiTransactionEncoding::JsonParsed ==> self@.indices_below(
                message.account_keys.len() as nat,
            ),
        ensures
            ui@ == ui_meta(
                builtin_parsers(),
                self@,
                message@.account_keys,
                encoding == UiTransactionEncoding::JsonParsed,
            ),
    {
        let registry = ParserRegistry::builtin();
        show_meta(
            &self,
            &message.account_keys,
            &registry,
            matches!(encoding, UiTransactionEncoding::JsonParsed),
        )
    }
}

/// The balance lists of an outcome keep their lengths when the outcome is
/// shown: one balance before and one after for each account of the
/// transaction.
pub proof fn lemma_shown_balances_match(
    parsers: Seq<ProgramParserView>,
    meta: TransactionStatusMetaView,
    account_keys: Seq<Seq<u8>>,
    parse: bool,
)
    requires
        meta.balances_match(account_keys.len()),
    ensures
        ui_meta(parsers, meta, account_keys, parse).pre_balances.len() == account_keys.len(),
        ui_meta(parsers, meta, account_keys, parse).post_balances.len() == account_keys.len(),
{
}

/// Showing an outcome never invents inner instructions or log messages:
/// each is present in the shown form exactly where the record has it, and
/// the error is present exactly where the status is a failure.
pub proof fn lemma_shown_presence(
    parsers: Seq<ProgramParserView>,
    meta: TransactionStatusMetaView,
    account_keys: Seq<Seq<u8>>,
    parse: bool,
)
    ensures
        ui_meta(parsers, meta, account_keys, parse).inner_instructions is Some
            <==> meta.inner_instructions is Some,
        ui_meta(parsers, meta, account_keys, parse).log_messages == meta.log_messages,
        ui_meta(parsers, meta, account_keys, parse).err is Some <==> meta.status is Err,
{
}

} // verus!
