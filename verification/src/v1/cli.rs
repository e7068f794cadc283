//! The command model of the public resource commands: one subcommand per
//! resource group, with the collection flags that map to query parameters.

use vstd::prelude::*;

verus! {

/// Shared collection-read flags (pagination, expand, fields, sort, count).
/// Every field maps to one documented query parameter.
#[derive(Debug, Default)]
pub struct ListFlags {
    /// Page size.
    pub limit: Option<u32>,
    /// Keyset pagination cursor from a prior `nextCursor`.
    pub cursor: Option<String>,
    /// Comma list of relations to inline.
    pub expand: Option<String>,
    /// Comma list of fields to project.
    pub fields: Option<String>,
    /// Sort key.
    pub sort: Option<String>,
    /// Sort order (`asc` | `desc`).
    pub order: Option<String>,
    /// Include a total `count` in the response.
    pub with_count: bool,
}

/// Collection flags plus a conditional-read ETag.
#[derive(Debug, Default)]
pub struct ConditionalListFlags {
    pub flags: ListFlags,
    /// Return 304 when the current budget projection has this ETag.
    pub if_none_match: Option<String>,
}

/// The public resource commands.
pub enum V1Command {
    /// Show the identity and workspace bound to the current token.
    Whoami,
    /// Manage projects.
    Projects(ProjectArgs),
    /// Workspace spaces.
    Spaces(CrudArgs),
    /// Workspace contacts.
    Contacts(ResourceArgs),
    /// Read and update budgets, lines, phases, and totals.
    Budget(BudgetArgs),
    /// Manage transactions and their items.
    Transactions(TransactionArgs),
    /// Manage purchase orders and their items.
    PurchaseOrders(PurchaseOrderArgs),
    /// Requests to pay a person or company.
    PaymentRequests(PaymentRequestArgs),
    /// Manage payments.
    Payments(PaymentArgs),
    /// Manage workspace Library resources.
    Library(LibraryArgs),
    /// Upload, read, and link documents.
    Documents(DocumentArgs),
    /// Search the workspace or one project.
    Search(SearchArgs),
    /// Manage webhooks and inspect deliveries.
    Webhooks(WebhookArgs),
}

/// A bare collection listing.
pub struct SimpleList {
    pub flags: ListFlags,
}

pub struct ResourceArgs {
    pub command: ResourceCommand,
}

/// List / get / create / update / delete by id.
pub enum ResourceCommand {
    List(ListFlags),
    Get { id: String, flags: ListFlags },
    Create { data: String },
    Update { id: String, data: String },
    Delete { id: String },
}

pub struct ProjectArgs {
    pub command: ProjectCommand,
}

pub enum ProjectCommand {
    List(ListFlags),
    Get { id: String, flags: ListFlags },
    Create { data: String },
    Update { id: String, data: String },
    /// Manage comments in one project.
    Comments(ProjectCommentArgs),
}

pub struct ProjectCommentArgs {
    /// Project id or slug.
    pub project_id: String,
    pub command: CrudCommand,
}

/// CRUD for a collection whose single-resource path has no read.
pub struct CrudArgs {
    pub command: CrudCommand,
}

pub enum CrudCommand {
    List(ListFlags),
    Create { data: String },
    Update { id: String, data: String },
    Delete { id: String },
}

pub struct BudgetArgs {
    pub command: BudgetCommand,
}

pub enum BudgetCommand {
    /// Read the budget with its lines, phases, and totals.
    Get(BudgetDocumentFlags),
    /// Read totals by phase.
    PhaseTotals(ConditionalListFlags),
    /// Budget lines.
    Lines(LineArgs),
    /// Editable values for Budget Lines by Phase.
    PhaseData(BudgetPhaseDataArgs),
    /// Budget phases.
    Phases(ResourceCommandWrap),
}

/// Filters of a budget read.
#[derive(Debug, Default)]
pub struct BudgetDocumentFlags {
    pub path: Option<String>,
    pub account_code: Option<String>,
    pub account_id: Option<String>,
    pub phase: Option<String>,
    pub tags: Option<String>,
    pub tag_mode: Option<String>,
    pub date_from: Option<String>,
    pub date_to: Option<String>,
    pub include_hidden_phases: bool,
    pub expand: Option<String>,
    pub if_none_match: Option<String>,
}

pub struct LineArgs {
    pub command: LineCommand,
}

pub enum LineCommand {
    List {
        account_id: Option<String>,
        path: Option<String>,
        phase: Option<String>,
        tags: Option<String>,
        kind: Option<String>,
        flags: ListFlags,
    },
    Get { line_id: String, flags: ListFlags },
    Create { data: String },
    Bulk { data: String },
    Update { line_id: String, data: String },
    Delete { line_id: String, reset: bool },
}

pub struct BudgetPhaseDataArgs {
    pub command: BudgetPhaseDataCommand,
}

pub enum BudgetPhaseDataCommand {
    SetValue { line_id: String, phase_id: String, data: String },
    Bulk { data: String },
}

pub struct ResourceCommandWrap {
    pub command: ResourceCommand,
}

pub struct TransactionArgs {
    pub command: TransactionCommand,
}

pub enum TransactionCommand {
    /// List with source, type, and status filters.
    List {
        source: Option<String>,
        type_filter: Option<String>,
        status: Option<String>,
        flags: ListFlags,
    },
    Get { tx_id: String, flags: ListFlags },
    Create { data: String },
    Update { tx_id: String, data: String },
    Delete { tx_id: String },
    Stats(ListFlags),
    Bulk { data: String },
    Items(TxItemArgs),
}

pub struct TxItemArgs {
    pub tx_id: String,
    pub command: CrudCommand,
}

pub struct PurchaseOrderArgs {
    pub command: PurchaseOrderCommand,
}

pub enum PurchaseOrderCommand {
    List(ListFlags),
    Get { purchase_order_id: String, flags: ListFlags },
    Create { data: String, expand: Option<String> },
    Update { purchase_order_id: String, data: String, expand: Option<String> },
    Delete { purchase_order_id: String },
    Submit { purchase_order_id: String },
    CancelSubmission { purchase_order_id: String },
    Void { purchase_order_id: String },
    MarkPaid { purchase_order_id: String },
    LinkTransaction { purchase_order_id: String, transaction_id: String },
    UnlinkTransaction { purchase_order_id: String, transaction_id: String },
    Timeline { purchase_order_id: String, flags: ListFlags },
    Items(PoItemArgs),
}

pub struct PaymentRequestArgs {
    pub command: PaymentRequestCommand,
}

pub enum PaymentRequestCommand {
    List(ListFlags),
    Get { payment_request_id: String, flags: ListFlags },
}

pub struct PaymentArgs {
    pub command: PaymentCommand,
}

pub enum PaymentCommand {
    List(ListFlags),
    Get { payment_id: String, flags: ListFlags },
    Timeline { payment_id: String, flags: ListFlags },
}

/// Line items of one purchase order.
pub struct PoItemArgs {
    pub purchase_order_id: String,
    pub command: CrudCommand,
}

pub struct LibraryArgs {
    pub command: LibraryCommand,
}

pub enum LibraryCommand {
    RatePacks(LibraryRatesArgs),
    Fringes(LibraryCrudArgs),
    Globals(LibraryCrudArgs),
    Currencies(LibraryCrudArgs),
    FringeGroups(LibraryCrudArgs),
    Tags(LibraryCrudArgs),
    Units(LibraryUnitsArgs),
    Incentives(IncentiveArgs),
    /// Library resources copied into one project.
    Project(ProjectLibraryArgs),
}

pub struct LibraryCrudArgs {
    pub command: LibraryCrudCommand,
}

pub enum LibraryCrudCommand {
    List(ListFlags),
    Get { id: String, flags: ListFlags },
    Create { data: String },
    Update { id: String, data: String },
    Delete { id: String },
}

pub struct LibraryRatesArgs {
    pub command: LibraryRatesCommand,
}

pub enum LibraryRatesCommand {
    List(ListFlags),
    Get { id: String, flags: ListFlags },
    Create { data: String },
    Update { id: String, data: String },
    Delete { id: String },
    Enable { id: String },
    Disable { id: String },
    Items(RatePackItemArgs),
}

/// Items within one rate pack.
pub struct RatePackItemArgs {
    pub pack_id: String,
    pub command: CrudCommand,
}

pub struct LibraryUnitsArgs {
    pub command: LibraryUnitsCommand,
}

pub enum LibraryUnitsCommand {
    List(ListFlags),
    Get { unit_id: String },
    Create { data: String },
    Update { unit_id: String, data: String },
    Delete { unit_id: String },
}

pub struct ProjectLibraryArgs {
    pub command: ProjectLibraryCommand,
}

pub enum ProjectLibraryCommand {
    Incentives(ProjectIncentiveArgs),
    Fringes(ProjectCopyArgs),
    Globals(ProjectCopyArgs),
    Currencies(ProjectCopyArgs),
    FringeGroups(ProjectCopyArgs),
    Tags(ProjectTagArgs),
}

pub struct ProjectIncentiveArgs {
    pub command: ProjectIncentiveCommand,
}

pub enum ProjectIncentiveCommand {
    List(ListFlags),
    Get { incentive_id: String, flags: ListFlags },
    Add { data: String },
    Update { incentive_id: String, data: String },
    Delete { incentive_id: String },
}

/// The copy-on-use sections: `add` copies a workspace source by id.
pub struct ProjectCopyArgs {
    pub command: ProjectCopyCommand,
}

pub enum ProjectCopyCommand {
    List(ListFlags),
    Get { id: String, flags: ListFlags },
    Add { source_id: String, reset: bool },
    Update { id: String, data: String },
    Delete { id: String },
}

pub struct ProjectTagArgs {
    pub command: ProjectTagCommand,
}

pub enum ProjectTagCommand {
    List(ListFlags),
}

pub struct IncentiveArgs {
    pub command: IncentiveCommand,
}

pub enum IncentiveCommand {
    List(ListFlags),
    Get { pack_id: String, flags: ListFlags },
    Programs { pack_id: String, flags: ListFlags },
    Enable { pack_id: String },
    Disable { pack_id: String },
}

pub struct DocumentArgs {
    pub command: DocumentCommand,
}

pub enum DocumentCommand {
    List(ListFlags),
    Get { document_id: String, flags: ListFlags },
    Upload {
        file: String,
        name: Option<String>,
        description: Option<String>,
        folder_id: Option<String>,
    },
    Update { document_id: String, data: String },
    Delete { document_id: String },
    /// Write the original document bytes to standard output.
    Content { document_id: String },
    Extraction { document_id: String },
    Link { document_id: String, kind: DocumentLinkKind, target_id: String, replace: bool },
    Unlink { document_id: String, kind: DocumentLinkKind },
}

pub struct SearchArgs {
    pub query: String,
    pub types: Option<String>,
    pub flags: ListFlags,
}

pub struct WebhookArgs {
    pub command: WebhookCommand,
}

pub enum WebhookCommand {
    List(ListFlags),
    Get { webhook_id: String, flags: ListFlags },
    Create { data: String },
    Update { webhook_id: String, data: String },
    Delete { webhook_id: String },
    TestDelivery { webhook_id: String },
    Deliveries { webhook_id: String, flags: ListFlags },
}

/// The public resources a document can be linked to.
#[derive(Clone, Copy, Debug, PartialEq, Eq, Structural)]
pub enum DocumentLinkKind {
    Transaction,
    Contact,
    PurchaseOrder,
    Project,
}

/// The API name of a link kind.
pub open spec fn link_kind_name(k: DocumentLinkKind) -> Seq<char> {
    match k {
        DocumentLinkKind::Transaction => "transaction"@,
        DocumentLinkKind::Contact => "contact"@,
        DocumentLinkKind::PurchaseOrder => "purchaseOrder"@,
        DocumentLinkKind::Project => "project"@,
    }
}

impl DocumentLinkKind {
    /// The API name of the link kind, used in the link path.
    pub fn api_name(&self) -> (s: &'static str)
        ensures
            s@ == link_kind_name(*self),
    {
        match self {
            DocumentLinkKind::Transaction => "transaction",
            DocumentLinkKind::Contact => "contact",
            DocumentLinkKind::PurchaseOrder => "purchaseOrder",
            DocumentLinkKind::Project => "project",
        }
    }
}

} // verus!
