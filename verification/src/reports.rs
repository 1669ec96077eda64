//! What an inventory holds after any series of reports.
use crate::inventory::InventoryView;
use crate::server::{Facility, ListResult, Report, ServerStream};
use crate::streams::{DeviceView, StreamView};
use vstd::prelude::*;

verus! {

/// An inventory after a series of reports.
pub open spec fn after_reports(inventory: InventoryView, reports: Seq<Report>) -> InventoryView
    decreases reports.len(),
{
    if reports.len() == 0 {
        inventory
    } else {
        after_reports(inventory, reports.drop_last()).after_report(reports.last())
    }
}

/// Whether a report is about the visible playback stream `index`.
pub open spec fn reports_app(report: Report, index: u32) -> bool {
    match report {
        Report::SinkInput(ListResult::Item(stream)) => stream@.index == index
            && !crate::presentation::is_hidden_playback(stream@.proplist),
        _ => false,
    }
}

/// Whether a report is about the visible recording stream `index`.
pub open spec fn reports_recorder(report: Report, index: u32) -> bool {
    match report {
        Report::SourceOutput(ListResult::Item(stream)) => stream@.index == index
            && !crate::presentation::is_hidden_recording(stream@.proplist),
        _ => false,
    }
}

/// What the stream of a report is listed as.
pub open spec fn reported_stream(report: Report) -> StreamView {
    match report {
        Report::SinkInput(ListResult::Item(stream)) => crate::presentation::shown(stream@),
        Report::SourceOutput(ListResult::Item(stream)) => crate::presentation::shown(stream@),
        _ => arbitrary(),
    }
}

/// Whether a report is about an output device that is listed as `device`.
pub open spec fn reports_sink(report: Report, device: DeviceView) -> bool {
    match report {
        Report::Sink(ListResult::Item(sink)) => device == crate::presentation::shown_device(
            sink.index,
            crate::streams::optional_text(sink.name),
            crate::streams::optional_text(sink.description),
        ),
        _ => false,
    }
}

/// Whether a report is about an input device of its own, not one that repeats a sink, that is
/// listed as `device`.
pub open spec fn reports_source(report: Report, device: DeviceView) -> bool {
    match report {
        Report::Source(ListResult::Item(source)) => source.monitor_of_sink is None && device
            == crate::presentation::shown_device(
            source.index,
            crate::streams::optional_text(source.name),
            crate::streams::optional_text(source.description),
        ),
        _ => false,
    }
}

/// Whether report `i` is the last one that satisfies a condition.
pub open spec fn is_latest(
    reports: Seq<Report>,
    i: int,
    condition: spec_fn(Report) -> bool,
) -> bool {
    &&& 0 <= i < reports.len()
    &&& condition(reports[i])
    &&& forall|j: int| i < j < reports.len() ==> !condition(#[trigger] reports[j])
}

/// The reports about the visible playback stream `index`.
pub open spec fn about_app(index: u32) -> spec_fn(Report) -> bool {
    |report: Report| reports_app(report, index)
}

/// What one report does to the playback stream `index`.
proof fn app_after_report(inventory: InventoryView, report: Report, index: u32)
    ensures
        ({
            let before = inventory.apps;
            let after = inventory.after_report(report).apps;
            if reports_app(report, index) {
                after.contains_key(index) && after[index] == reported_stream(report)
            } else {
                after.contains_key(index) == before.contains_key(index) && after[index]
                    == before[index]
            }
        }),
{
}

/// The reports about the visible recording stream `index`.
pub open spec fn about_recorder(index: u32) -> spec_fn(Report) -> bool {
    |report: Report| reports_recorder(report, index)
}

/// What one report does to the recording stream `index`.
proof fn recorder_after_report(inventory: InventoryView, report: Report, index: u32)
    ensures
        ({
            let before = inventory.recorders;
            let after = inventory.after_report(report).recorders;
            if reports_recorder(report, index) {
                after.contains_key(index) && after[index] == reported_stream(report)
            } else {
                after.contains_key(index) == before.contains_key(index) && after[index]
                    == before[index]
            }
        }),
{
}

/// After the list of playback streams has been emptied, whatever is reported next: a stream is
/// listed if and only if it was reported and is not one that is kept out, and what is listed is
/// its latest such report.
pub proof fn apps_are_the_visible_reports(
    inventory: InventoryView,
    reports: Seq<Report>,
    index: u32,
)
    requires
        inventory.apps == Map::<u32, StreamView>::empty(),
    ensures
        after_reports(inventory, reports).apps.contains_key(index) <==> exists|i: int|
            0 <= i < reports.len() && reports_app(#[trigger] reports[i], index),
        forall|i: int| #[trigger]
            is_latest(reports, i, about_app(index))
                ==> after_reports(inventory, reports).apps[index] == reported_stream(
                reports[i],
            ),
    decreases reports.len(),
{
    let condition = about_app(index);
    if reports.len() > 0 {
        let earlier = reports.drop_last();
        let last = reports.last();
        apps_are_the_visible_reports(inventory, earlier, index);
        app_after_report(after_reports(inventory, earlier), last, index);
        if exists|i: int| 0 <= i < earlier.len() && reports_app(#[trigger] earlier[i], index) {
            let i = choose|i: int|
                0 <= i < earlier.len() && reports_app(#[trigger] earlier[i], index);
            assert(reports_app(reports[i], index));
        }
        if exists|i: int| 0 <= i < reports.len() && reports_app(#[trigger] reports[i], index) {
            let i = choose|i: int|
                0 <= i < reports.len() && reports_app(#[trigger] reports[i], index);
            assert(i < earlier.len() ==> reports_app(earlier[i], index));
        }
        assert(reports[reports.len() - 1] == last);
        assert forall|i: int| #[trigger] is_latest(reports, i, condition) implies after_reports(
            inventory,
            reports,
        ).apps[index] == reported_stream(reports[i]) by {
            if i < earlier.len() {
                assert(!condition(reports[reports.len() - 1]));
                assert forall|j: int| i < j < earlier.len() implies !condition(
                    #[trigger] earlier[j],
                ) by {
                    assert(!condition(reports[j]));
                }
                assert(is_latest(earlier, i, condition));
            }
        }
    }
}

/// After the list of recording streams has been emptied, whatever is reported next: a stream is
/// listed if and only if it was reported and is not one that is kept out, and what is listed is
/// its latest such report.
pub proof fn recorders_are_the_visible_reports(
    inventory: InventoryView,
    reports: Seq<Report>,
    index: u32,
)
    requires
        inventory.recorders == Map::<u32, StreamView>::empty(),
    ensures
        after_reports(inventory, reports).recorders.contains_key(index) <==> exists|i: int|
            0 <= i < reports.len() && reports_recorder(#[trigger] reports[i], index),
        forall|i: int| #[trigger]
            is_latest(reports, i, about_recorder(index))
                ==> after_reports(inventory, reports).recorders[index] == reported_stream(
                reports[i],
            ),
    decreases reports.len(),
{
    let condition = about_recorder(index);
    if reports.len() > 0 {
        let earlier = reports.drop_last();
        let last = reports.last();
        recorders_are_the_visible_reports(inventory, earlier, index);
        recorder_after_report(after_reports(inventory, earlier), last, index);
        if exists|i: int| 0 <= i < earlier.len() && reports_recorder(#[trigger] earlier[i], index) {
            let i = choose|i: int|
                0 <= i < earlier.len() && reports_recorder(#[trigger] earlier[i], index);
            assert(reports_recorder(reports[i], index));
        }
        if exists|i: int| 0 <= i < reports.len() && reports_recorder(#[trigger] reports[i], index) {
            let i = choose|i: int|
                0 <= i < reports.len() && reports_recorder(#[trigger] reports[i], index);
            assert(i < earlier.len() ==> reports_recorder(earlier[i], index));
        }
        assert(reports[reports.len() - 1] == last);
        assert forall|i: int| #[trigger] is_latest(reports, i, condition) implies after_reports(
            inventory,
            reports,
        ).recorders[index] == reported_stream(reports[i]) by {
            if i < earlier.len() {
                assert(!condition(reports[reports.len() - 1]));
                assert forall|j: int| i < j < earlier.len() implies !condition(
                    #[trigger] earlier[j],
                ) by {
                    assert(!condition(reports[j]));
                }
                assert(is_latest(earlier, i, condition));
            }
        }
    }
}

/// After the list of output devices has been emptied, exactly the reported ones are listed.
pub proof fn sinks_are_the_reports(
    inventory: InventoryView,
    reports: Seq<Report>,
    device: DeviceView,
)
    requires
        inventory.sinks == Seq::<DeviceView>::empty(),
    ensures
        after_reports(inventory, reports).sinks.contains(device) <==> exists|i: int|
            0 <= i < reports.len() && reports_sink(#[trigger] reports[i], device),
    decreases reports.len(),
{
    if reports.len() > 0 {
        let earlier = reports.drop_last();
        let last = reports.last();
        sinks_are_the_reports(inventory, earlier, device);
        let before = after_reports(inventory, earlier).sinks;
        let after = after_reports(inventory, reports).sinks;
        assert(forall|i: int| 0 <= i < earlier.len() ==> #[trigger] earlier[i] == reports[i]);
        assert(reports[reports.len() - 1] == last);
        if reports_sink(last, device) {
            assert(after.last() == device);
            assert(after.contains(device));
        } else {
            device_list_grows(before, after, device);
        }
        if exists|i: int| 0 <= i < reports.len() && reports_sink(#[trigger] reports[i], device) {
            let i = choose|i: int|
                0 <= i < reports.len() && reports_sink(#[trigger] reports[i], device);
            if i < earlier.len() {
                assert(reports_sink(earlier[i], device));
            }
        }
        if exists|i: int| 0 <= i < earlier.len() && reports_sink(#[trigger] earlier[i], device) {
            let i = choose|i: int|
                0 <= i < earlier.len() && reports_sink(#[trigger] earlier[i], device);
            assert(reports_sink(reports[i], device));
        }
    }
}

/// After the list of input devices has been emptied, exactly the reported ones are listed that do
/// not repeat what a sink plays.
pub proof fn sources_are_the_real_reports(
    inventory: InventoryView,
    reports: Seq<Report>,
    device: DeviceView,
)
    requires
        inventory.sources == Seq::<DeviceView>::empty(),
    ensures
        after_reports(inventory, reports).sources.contains(device) <==> exists|i: int|
            0 <= i < reports.len() && reports_source(#[trigger] reports[i], device),
    decreases reports.len(),
{
    if reports.len() > 0 {
        let earlier = reports.drop_last();
        let last = reports.last();
        sources_are_the_real_reports(inventory, earlier, device);
        let before = after_reports(inventory, earlier).sources;
        let after = after_reports(inventory, reports).sources;
        assert(forall|i: int| 0 <= i < earlier.len() ==> #[trigger] earlier[i] == reports[i]);
        assert(reports[reports.len() - 1] == last);
        if reports_source(last, device) {
            assert(after.last() == device);
            assert(after.contains(device));
        } else {
            device_list_grows(before, after, device);
        }
        if exists|i: int| 0 <= i < reports.len() && reports_source(#[trigger] reports[i], device) {
            let i = choose|i: int|
                0 <= i < reports.len() && reports_source(#[trigger] reports[i], device);
            if i < earlier.len() {
                assert(reports_source(earlier[i], device));
            }
        }
        if exists|i: int| 0 <= i < earlier.len() && reports_source(#[trigger] earlier[i], device) {
            let i = choose|i: int|
                0 <= i < earlier.len() && reports_source(#[trigger] earlier[i], device);
            assert(reports_source(reports[i], device));
        }
    }
}

/// A list that stays the same, or gets another entry than `device`, holds `device` or not as
/// before.
proof fn device_list_grows(before: Seq<DeviceView>, after: Seq<DeviceView>, device: DeviceView)
    requires
        after == before || (after.len() == before.len() + 1 && after == before.push(after.last())
            && after.last() != device),
    ensures
        after.contains(device) <==> before.contains(device),
{
    if before.contains(device) {
        let i = choose|i: int| 0 <= i < before.len() && before[i] == device;
        assert(after[i] == device);
    }
    if after.contains(device) {
        let i = choose|i: int| 0 <= i < after.len() && after[i] == device;
        assert(before[i] == device);
    }
}

/// What a report does to one part of an inventory depends on that part alone.
pub proof fn reports_work_alike(left: InventoryView, right: InventoryView, report: Report)
    ensures
        left.apps == right.apps ==> left.after_report(report).apps
            == right.after_report(report).apps,
        left.recorders == right.recorders ==> left.after_report(report).recorders
            == right.after_report(report).recorders,
        left.sinks == right.sinks ==> left.after_report(report).sinks
            == right.after_report(report).sinks,
        left.sources == right.sources ==> left.after_report(report).sources
            == right.after_report(report).sources,
        left.master_volume == right.master_volume ==> left.after_report(report).master_volume
            == right.after_report(report).master_volume,
        left.master_muted == right.master_muted ==> left.after_report(report).master_muted
            == right.after_report(report).master_muted,
        left.default_sink == right.default_sink ==> left.after_report(report).default_sink
            == right.after_report(report).default_sink,
{
}

/// No report breaks an inventory.
pub proof fn reports_keep_inventory_wf(inventory: InventoryView, report: Report)
    requires
        inventory.wf(),
    ensures
        inventory.after_report(report).wf(),
{
    match report {
        Report::SinkInput(ListResult::Item(stream))
        | Report::SourceOutput(ListResult::Item(stream)) => {
            crate::presentation::shown_volume_is_capped(stream@);
        },
        Report::DefaultSink(ListResult::Item(sink)) => {
            crate::volume::percent_of_monotone(0, sink.volume as int);
            crate::volume::reference_points();
        },
        _ => {},
    }
}

/// Reports of changes call for a refresh exactly where the monitor subscribes to them, and no
/// report takes such a call back.
pub proof fn calls_for_refresh(inventory: InventoryView, report: Report)
    ensures
        inventory.needs_refresh ==> inventory.after_report(report).needs_refresh,
        !inventory.needs_refresh ==> (inventory.after_report(report).needs_refresh <==> (report
            matches Report::Change(Some(facility)) && crate::monitor::interests_list().contains(
            facility,
        ))),
{
    let list = crate::monitor::interests_list();
    assert(list[0] == Facility::SinkInput && list[1] == Facility::Sink && list[2]
        == Facility::SourceOutput && list[3] == Facility::Source);
    assert(forall|facility: Facility| #[trigger]
        list.contains(facility) <==> crate::inventory::is_relevant(Some(facility)));
}

/// A report is about a visible stream if and only if nothing in the stream's properties keeps it
/// out, and what is listed for it is what was reported.
pub proof fn visible_reports_are_ordinary(stream: ServerStream, index: u32)
    ensures
        ({
            let report = crate::appearance::playing(stream);
            &&& reports_app(report, index) <==> stream.index == index
                && crate::appearance::is_ordinary_playback(stream)
            &&& crate::appearance::carries_settings(reported_stream(report), stream)
            &&& crate::appearance::carries_name(reported_stream(report), stream)
            &&& crate::appearance::carries_icon(reported_stream(report), stream)
        }),
        ({
            let report = crate::appearance::recording(stream);
            &&& reports_recorder(report, index) <==> stream.index == index
                && crate::appearance::is_ordinary_recording(stream)
            &&& crate::appearance::carries_settings(reported_stream(report), stream)
            &&& crate::appearance::carries_name(reported_stream(report), stream)
            &&& crate::appearance::carries_icon(reported_stream(report), stream)
        }),
{
    crate::appearance::decisions_are_those_of_the_list(stream);
}

/// The reports that say how the default sink is set.
pub open spec fn about_master() -> spec_fn(Report) -> bool {
    |report: Report| report matches Report::DefaultSink(answer) && answer is Item
}

/// After any series of reports, the master is shown as in the latest report of the default sink,
/// whatever was shown before; where there is none, it is shown as before.
pub proof fn master_is_the_latest_report(inventory: InventoryView, reports: Seq<Report>)
    ensures
        ({
            let after = after_reports(inventory, reports);
            &&& forall|i: int| #[trigger]
                is_latest(reports, i, about_master()) ==> (reports[i] matches Report::DefaultSink(
                    ListResult::Item(sink),
                ) && after.master_muted == sink.mute && crate::appearance::is_percentage_of(
                    after.master_volume,
                    sink.volume,
                ))
            &&& (forall|i: int|
                0 <= i < reports.len() ==> !about_master()(#[trigger] reports[i])) ==> (
            after.master_volume == inventory.master_volume && after.master_muted
                == inventory.master_muted)
        }),
    decreases reports.len(),
{
    if reports.len() > 0 {
        let earlier = reports.drop_last();
        let last = reports.last();
        let before = after_reports(inventory, earlier);
        master_is_the_latest_report(inventory, earlier);
        assert(reports[reports.len() - 1] == last);
        if let Report::DefaultSink(ListResult::Item(sink)) = last {
            crate::appearance::reported_default_sink_is_shown(before, sink);
            assert(about_master()(last));
        } else {
            assert(!about_master()(last));
            if let Report::DefaultSink(_) = last {
                crate::appearance::only_items_count(before, last);
            } else {
                crate::appearance::reports_touch_their_part_alone(before, last);
            }
            assert(forall|i: int| 0 <= i < earlier.len() ==> #[trigger] earlier[i] == reports[i]);
            assert forall|i: int| #[trigger] is_latest(reports, i, about_master()) implies is_latest(
                earlier,
                i,
                about_master(),
            ) by {
                assert forall|j: int| i < j < earlier.len() implies !about_master()(
                    #[trigger] earlier[j],
                ) by {
                    assert(!about_master()(reports[j]));
                }
            }
            if forall|i: int| 0 <= i < reports.len() ==> !about_master()(#[trigger] reports[i]) {
                assert forall|i: int| 0 <= i < earlier.len() implies !about_master()(
                    #[trigger] earlier[i],
                ) by {
                    assert(!about_master()(reports[i]));
                }
            }
        }
    }
}

/// The reports that name the default sink.
pub open spec fn about_default_sink() -> spec_fn(Report) -> bool {
    |report: Report| report matches Report::Server(name) && name is Some
}

/// After any series of reports, the default sink has the name that the server gave last; where it
/// gave none, it has the name that it had.
pub proof fn default_sink_is_the_latest_name(inventory: InventoryView, reports: Seq<Report>)
    ensures
        ({
            let after = after_reports(inventory, reports);
            &&& forall|i: int| #[trigger]
                is_latest(reports, i, about_default_sink()) ==> (reports[i] matches Report::Server(
                    Some(name),
                ) && after.default_sink == name@)
            &&& (forall|i: int|
                0 <= i < reports.len() ==> !about_default_sink()(#[trigger] reports[i]))
                ==> after.default_sink == inventory.default_sink
        }),
    decreases reports.len(),
{
    if reports.len() > 0 {
        let earlier = reports.drop_last();
        let last = reports.last();
        let before = after_reports(inventory, earlier);
        default_sink_is_the_latest_name(inventory, earlier);
        assert(reports[reports.len() - 1] == last);
        if let Report::Server(name) = last {
            crate::appearance::reported_name_is_kept(before, name);
        } else {
            crate::appearance::reports_touch_their_part_alone(before, last);
        }
        if !about_default_sink()(last) {
            assert(forall|i: int| 0 <= i < earlier.len() ==> #[trigger] earlier[i] == reports[i]);
            assert forall|i: int| #[trigger]
                is_latest(reports, i, about_default_sink()) implies is_latest(
                earlier,
                i,
                about_default_sink(),
            ) by {
                assert forall|j: int| i < j < earlier.len() implies !about_default_sink()(
                    #[trigger] earlier[j],
                ) by {
                    assert(!about_default_sink()(reports[j]));
                }
            }
            if forall|i: int|
                0 <= i < reports.len() ==> !about_default_sink()(#[trigger] reports[i]) {
                assert forall|i: int| 0 <= i < earlier.len() implies !about_default_sink()(
                    #[trigger] earlier[i],
                ) by {
                    assert(!about_default_sink()(reports[i]));
                }
            }
        }
    }
}

/// What a freshly started monitor shows as the master volume until the default sink is reported:
/// 100 %, not muted.
pub proof fn master_starts_at_full_volume(reports: Seq<Report>)
    requires
        forall|i: int| 0 <= i < reports.len() ==> !about_master()(#[trigger] reports[i]),
    ensures
        after_reports(InventoryView::initial(), reports).master_volume == 100,
        !after_reports(InventoryView::initial(), reports).master_muted,
{
    master_is_the_latest_report(InventoryView::initial(), reports);
}

} // verus!
