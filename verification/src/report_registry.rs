//! Registering reports: one record for each submission, counted by the
//! treasury it is registered against.

use vstd::prelude::*;
use crate::errors::{BriberyBusterError, Failure};
use crate::state::{Account, Address, Report, Treasury};

verus! {

/// The accounts of [`submit_report`].
#[derive(Clone, Copy, Debug, PartialEq, Eq)]
pub struct SubmitReport {
    /// The place of the report to be: a fresh address, and what the ledger
    /// holds there so far.
    pub report: Account<Option<Report>>,
    /// The treasury against which the report is registered.
    pub treasury: Account<Treasury>,
    /// The principal that signs the request.
    pub reporter: Address,
}

/// What [`submit_report`] makes of its accounts.
///
/// The report needs a place where nothing lives yet, and the treasury must
/// be able to count one more. The new report names its reporter, the digest
/// and the time, and is not verified; the treasury has counted it and is
/// otherwise unchanged. Which digest is submitted decides nothing.
pub open spec fn submit_report_outcome(
    ctx: SubmitReport,
    report_hash: [u8; 32],
    unix_timestamp: i64,
) -> Result<SubmitReport, Failure> {
    if ctx.report.data is Some {
        Err(Failure::AlreadyExists)
    } else if ctx.treasury.data.total_reports == u64::MAX {
        Err(Failure::Program(BriberyBusterError::MathOverflow))
    } else {
        Ok(
            SubmitReport {
                report: Account {
                    address: ctx.report.address,
                    data: Some(
                        Report {
                            reporter: ctx.reporter,
                            hash: report_hash,
                            timestamp: unix_timestamp,
                            verified: false,
                        },
                    ),
                },
                treasury: Account {
                    address: ctx.treasury.address,
                    data: Treasury {
                        total_reports: (ctx.treasury.data.total_reports + 1) as u64,
                        ..ctx.treasury.data
                    },
                },
                ..ctx
            },
        )
    }
}

/// Registers the digest `report_hash` for `ctx.reporter` at the ledger time
/// `unix_timestamp`, and returns the address of the new report.
///
/// Fails with [`Failure::AlreadyExists`] where a record lives at the place of
/// the report already, and with [`BriberyBusterError::MathOverflow`] where the
/// treasury has counted `u64::MAX` reports. The digest is taken as it comes,
/// and the treasury's address is not held against its authority: both are for
/// the caller to get right. That the reporter has signed is for the ledger to
/// check.
pub fn submit_report(ctx: &mut SubmitReport, report_hash: [u8; 32], unix_timestamp: i64) -> (result:
    Result<Address, Failure>)
    ensures
        match result {
            Ok(address) => {
                &&& submit_report_outcome(*old(ctx), report_hash, unix_timestamp) matches Ok(after)
                    && after == *final(ctx)
                &&& address == old(ctx).report.address
            },
            Err(failure) => {
                &&& submit_report_outcome(*old(ctx), report_hash, unix_timestamp) matches Err(why)
                    && why == failure
                &&& *final(ctx) == *old(ctx)
            },
        },
        old(ctx).report.data is None && old(ctx).treasury.data.total_reports == u64::MAX ==> result
            == Err::<Address, Failure>(Failure::Program(BriberyBusterError::MathOverflow))
            && *final(ctx) == *old(ctx),
        final(ctx).treasury.address == old(ctx).treasury.address,
        old(ctx).treasury.data.evolves_to(final(ctx).treasury.data),
        final(ctx).treasury.data.total_rewards_distributed == old(
            ctx
        ).treasury.data.total_rewards_distributed,
{
    if ctx.report.data.is_some() {
        return Err(Failure::AlreadyExists);
    }
    let total_reports = match ctx.treasury.data.total_reports.checked_add(1) {
        Some(total) => total,
        None => {
            return Err(Failure::Program(BriberyBusterError::MathOverflow));
        },
    };
    ctx.report.data = Some(
        Report {
            reporter: ctx.reporter,
            hash: report_hash,
            timestamp: unix_timestamp,
            verified: false,
        },
    );
    ctx.treasury.data.total_reports = total_reports;
    Ok(ctx.report.address)
}

/// One call of [`submit_report`]: the accounts it is handed and its
/// arguments.
pub struct Submission {
    /// The accounts as they are before the call.
    pub ctx: SubmitReport,
    /// The digest that is submitted.
    pub report_hash: [u8; 32],
    /// The ledger time of the call.
    pub unix_timestamp: i64,
}

/// Whether `calls` are successful submissions, one after the other, against
/// the treasury `start`, and `after` is what each of them left.
pub open spec fn is_run_of_submissions(
    start: Account<Treasury>,
    calls: Seq<Submission>,
    after: Seq<SubmitReport>,
) -> bool {
    &&& after.len() == calls.len()
    &&& forall|i: int|
        0 <= i < calls.len() ==> submit_report_outcome(
            #[trigger] calls[i].ctx,
            calls[i].report_hash,
            calls[i].unix_timestamp,
        ) == Ok::<SubmitReport, Failure>(after[i])
    &&& forall|i: int|
        0 <= i < calls.len() ==> (#[trigger] calls[i]).ctx.treasury == if i == 0 {
            start
        } else {
            after[i - 1].treasury
        }
}

proof fn count_after_submissions(
    start: Account<Treasury>,
    calls: Seq<Submission>,
    after: Seq<SubmitReport>,
    i: int,
)
    requires
        is_run_of_submissions(start, calls, after),
        0 <= i < calls.len(),
    ensures
        after[i].treasury == (Account {
            address: start.address,
            data: Treasury {
                total_reports: (start.data.total_reports + i + 1) as u64,
                ..start.data
            },
        }),
        start.data.total_reports + i + 1 <= u64::MAX,
    decreases i,
{
    let call = calls[i];
    assert(submit_report_outcome(call.ctx, call.report_hash, call.unix_timestamp) == Ok::<
        SubmitReport,
        Failure,
    >(after[i]));
    if i > 0 {
        count_after_submissions(start, calls, after, i - 1);
    }
}

/// After any number of successful submissions against one treasury, the
/// treasury has counted exactly that many more reports, and each submission
/// has left a report of its own, in the place it was given, that names what
/// was submitted and is not verified. Nothing else of the treasury changed.
pub proof fn submissions_are_counted(
    start: Account<Treasury>,
    calls: Seq<Submission>,
    after: Seq<SubmitReport>,
)
    requires
        is_run_of_submissions(start, calls, after),
    ensures
        forall|i: int|
            0 <= i < calls.len() ==> {
                &&& (#[trigger] after[i]).treasury.data.total_reports == start.data.total_reports
                    + i + 1
                &&& after[i].report == (Account {
                    address: calls[i].ctx.report.address,
                    data: Some(
                        Report {
                            reporter: calls[i].ctx.reporter,
                            hash: calls[i].report_hash,
                            timestamp: calls[i].unix_timestamp,
                            verified: false,
                        },
                    ),
                })
            },
        calls.len() > 0 ==> after.last().treasury == (Account {
            address: start.address,
            data: Treasury {
                total_reports: (start.data.total_reports + calls.len()) as u64,
                ..start.data
            },
        }),
        start.data.total_reports + calls.len() <= u64::MAX,
{
    assert forall|i: int| 0 <= i < calls.len() implies {
        &&& (#[trigger] after[i]).treasury.data.total_reports == start.data.total_reports + i + 1
        &&& after[i].report == (Account {
            address: calls[i].ctx.report.address,
            data: Some(
                Report {
                    reporter: calls[i].ctx.reporter,
                    hash: calls[i].report_hash,
                    timestamp: calls[i].unix_timestamp,
                    verified: false,
                },
            ),
        })
    } by {
        count_after_submissions(start, calls, after, i);
        let call = calls[i];
        assert(submit_report_outcome(call.ctx, call.report_hash, call.unix_timestamp) == Ok::<
            SubmitReport,
            Failure,
        >(after[i]));
    }
    if calls.len() > 0 {
        count_after_submissions(start, calls, after, calls.len() - 1);
    }
}

/// The reports of a run of successful submissions live at addresses that
/// differ from one another, on a ledger that holds one record per address:
/// one that hands a place which an earlier call has filled to a later call
/// as filled.
pub proof fn reports_of_a_run_are_distinct(
    start: Account<Treasury>,
    calls: Seq<Submission>,
    after: Seq<SubmitReport>,
)
    requires
        is_run_of_submissions(start, calls, after),
        forall|i: int, j: int|
            0 <= i < j < calls.len() && calls[j].ctx.report.address == calls[i].ctx.report.address
                ==> (#[trigger] calls[j]).ctx.report.data == (#[trigger] after[i]).report.data,
    ensures
        forall|i: int, j: int|
            0 <= i < j < calls.len() ==> (#[trigger] after[i]).report.address != (
            #[trigger] after[j]).report.address,
{
    submissions_are_counted(start, calls, after);
    assert forall|i: int, j: int| 0 <= i < j < calls.len() implies (#[trigger] after[i]).report.address
        != (#[trigger] after[j]).report.address by {
        let later = calls[j];
        assert(submit_report_outcome(later.ctx, later.report_hash, later.unix_timestamp) is Ok);
    }
}

/// A digest may be submitted any number of times: whether a submission
/// succeeds does not depend on the digest, so a second submission of a digest
/// fails only where any other would, and where it succeeds it leaves a second
/// report with that digest beside the first.
pub proof fn duplicate_digests_are_accepted(
    first: SubmitReport,
    second: SubmitReport,
    report_hash: [u8; 32],
    first_timestamp: i64,
    second_timestamp: i64,
    other_hash: [u8; 32],
)
    requires
        submit_report_outcome(first, report_hash, first_timestamp) is Ok,
        second.treasury == submit_report_outcome(
            first,
            report_hash,
            first_timestamp,
        )->Ok_0.treasury,
    ensures
        submit_report_outcome(first, report_hash, first_timestamp)->Ok_0.report.data matches Some(
            report,
        ) && report.hash == report_hash,
        submit_report_outcome(second, report_hash, second_timestamp) is Ok
            <==> submit_report_outcome(second, other_hash, second_timestamp) is Ok,
        submit_report_outcome(second, report_hash, second_timestamp) is Ok <==> second.report.data
            is None && second.treasury.data.total_reports < u64::MAX,
        submit_report_outcome(second, report_hash, second_timestamp) matches Ok(after)
            ==> after.report.data matches Some(report) && report.hash == report_hash,
{
}

} // verus!
