//! The functions of the shared objects, and the crates that wrap their code.

use vstd::prelude::*;

use crate::vdso::example_api;
use crate::vdso::vqueue_api;
use crate::vdso::vsched2_api;
use crate::vdso::wrapper::{
    cargo_toml_content, common_names, feature_list, lib_rs_content, names, relative_names,
    relative_path, BuildConfig,
};

verus! {

/// Every function of the scheduler is at its own place in the shared object, wherever that is,
/// and none is known before.
pub proof fn law_schedulers_functions_are_found(
    empty: vsched2_api::VdsoVTable,
    table: &mut vsched2_api::VdsoVTable,
    base: u64,
    f: vsched2_api::VdsoFn,
    before: Option<u64>,
    addr: Option<u64>,
)
    requires
        base <= u64::MAX - 0x6000,
        call_ensures(vsched2_api::VdsoVTable::new, (), empty),
        call_ensures(vsched2_api::VdsoVTable::entry, (&empty, f), before),
        call_ensures(vsched2_api::init_vdso_vtable, (table, base), ()),
        call_ensures(vsched2_api::VdsoVTable::entry, (&*final(table), f), addr),
    ensures
        before is None,
        f is KernelInitMain ==> addr == Some((base + 0x4168) as u64),
        final(table).kernel_init_main == Some((base + 0x4168) as u64),
        f is KernelInitSecondary ==> addr == Some((base + 0x4334) as u64),
        final(table).kernel_init_secondary == Some((base + 0x4334) as u64),
        f is ProcessInit ==> addr == Some((base + 0x45d2) as u64),
        final(table).process_init == Some((base + 0x45d2) as u64),
        f is ProcessDrop ==> addr == Some((base + 0x4572) as u64),
        final(table).process_drop == Some((base + 0x4572) as u64),
        f is ProcessReinit ==> addr == Some((base + 0x485c) as u64),
        final(table).process_reinit == Some((base + 0x485c) as u64),
        f is UserInit ==> addr == Some((base + 0x52fa) as u64),
        final(table).user_init == Some((base + 0x52fa) as u64),
        f is UserInitWithVspace ==> addr == Some((base + 0x5318) as u64),
        final(table).user_init_with_vspace == Some((base + 0x5318) as u64),
        f is UserSchedulerAddr ==> addr == Some((base + 0x5388) as u64),
        final(table).user_scheduler_addr == Some((base + 0x5388) as u64),
        f is PushTaskIntoCurrent ==> addr == Some((base + 0x4b9a) as u64),
        final(table).push_task_into_current == Some((base + 0x4b9a) as u64),
        f is PushTask ==> addr == Some((base + 0x4a98) as u64),
        final(table).push_task == Some((base + 0x4a98) as u64),
        f is PushTaskIntoProcess ==> addr == Some((base + 0x4bea) as u64),
        final(table).push_task_into_process == Some((base + 0x4bea) as u64),
        f is CurrentVspace ==> addr == Some((base + 0x4100) as u64),
        final(table).current_vspace == Some((base + 0x4100) as u64),
        f is TrapHandler ==> addr == Some((base + 0x4ec6) as u64),
        final(table).trap_handler == Some((base + 0x4ec6) as u64),
        f is CurrentTaskPtr ==> addr == Some((base + 0x4098) as u64),
        final(table).current_task_ptr == Some((base + 0x4098) as u64),
        f is SetCurrentTaskPtr ==> addr == Some((base + 0x4c76) as u64),
        final(table).set_current_task_ptr == Some((base + 0x4c76) as u64),
        f is TakeCurrentStack ==> addr == Some((base + 0x4ce2) as u64),
        final(table).take_current_stack == Some((base + 0x4ce2) as u64),
        f is RawTrapEntry ==> addr == Some((base + 0x8f4) as u64),
        final(table).raw_trap_entry == Some((base + 0x8f4) as u64),
        f is RawThreadEntry ==> addr == Some((base + 0x924) as u64),
        final(table).raw_thread_entry == Some((base + 0x924) as u64),
        f is RawRunTask ==> addr == Some((base + 0x98e) as u64),
        final(table).raw_run_task == Some((base + 0x98e) as u64),
        f is RawKschedule ==> addr == Some((base + 0x944) as u64),
        final(table).raw_kschedule == Some((base + 0x944) as u64),
        f is InitLog ==> addr == Some((base + 0x5a22) as u64),
        final(table).init_log == Some((base + 0x5a22) as u64),
        f is InitVtableTask ==> addr == Some((base + 0x57a4) as u64),
        final(table).init_vtable_Task == Some((base + 0x57a4) as u64),
        f is InitVtableStack ==> addr == Some((base + 0x5770) as u64),
        final(table).init_vtable_Stack == Some((base + 0x5770) as u64),
        f is InitVtableContext ==> addr == Some((base + 0x571c) as u64),
        final(table).init_vtable_Context == Some((base + 0x571c) as u64),
        f is InitVtableTrapInfo ==> addr == Some((base + 0x5810) as u64),
        final(table).init_vtable_TrapInfo == Some((base + 0x5810) as u64),
        f is InitVtableSMP ==> addr == Some((base + 0x574c) as u64),
        final(table).init_vtable_SMP == Some((base + 0x574c) as u64),
        f is InitVtableVSpace ==> addr == Some((base + 0x5868) as u64),
        final(table).init_vtable_VSpace == Some((base + 0x5868) as u64),
        f is InitVtableUserData ==> addr == Some((base + 0x5844) as u64),
        final(table).init_vtable_UserData == Some((base + 0x5844) as u64),
{
    assert(final(table).get(vsched2_api::VdsoFn::KernelInitMain) == Some((base + 0x4168) as u64));
    assert(final(table).get(vsched2_api::VdsoFn::KernelInitSecondary) == Some((base + 0x4334) as u64));
    assert(final(table).get(vsched2_api::VdsoFn::ProcessInit) == Some((base + 0x45d2) as u64));
    assert(final(table).get(vsched2_api::VdsoFn::ProcessDrop) == Some((base + 0x4572) as u64));
    assert(final(table).get(vsched2_api::VdsoFn::ProcessReinit) == Some((base + 0x485c) as u64));
    assert(final(table).get(vsched2_api::VdsoFn::UserInit) == Some((base + 0x52fa) as u64));
    assert(final(table).get(vsched2_api::VdsoFn::UserInitWithVspace) == Some((base + 0x5318) as u64));
    assert(final(table).get(vsched2_api::VdsoFn::UserSchedulerAddr) == Some((base + 0x5388) as u64));
    assert(final(table).get(vsched2_api::VdsoFn::PushTaskIntoCurrent) == Some((base + 0x4b9a) as u64));
    assert(final(table).get(vsched2_api::VdsoFn::PushTask) == Some((base + 0x4a98) as u64));
    assert(final(table).get(vsched2_api::VdsoFn::PushTaskIntoProcess) == Some((base + 0x4bea) as u64));
    assert(final(table).get(vsched2_api::VdsoFn::CurrentVspace) == Some((base + 0x4100) as u64));
    assert(final(table).get(vsched2_api::VdsoFn::TrapHandler) == Some((base + 0x4ec6) as u64));
    assert(final(table).get(vsched2_api::VdsoFn::CurrentTaskPtr) == Some((base + 0x4098) as u64));
    assert(final(table).get(vsched2_api::VdsoFn::SetCurrentTaskPtr) == Some((base + 0x4c76) as u64));
    assert(final(table).get(vsched2_api::VdsoFn::TakeCurrentStack) == Some((base + 0x4ce2) as u64));
    assert(final(table).get(vsched2_api::VdsoFn::RawTrapEntry) == Some((base + 0x8f4) as u64));
    assert(final(table).get(vsched2_api::VdsoFn::RawThreadEntry) == Some((base + 0x924) as u64));
    assert(final(table).get(vsched2_api::VdsoFn::RawRunTask) == Some((base + 0x98e) as u64));
    assert(final(table).get(vsched2_api::VdsoFn::RawKschedule) == Some((base + 0x944) as u64));
    assert(final(table).get(vsched2_api::VdsoFn::InitLog) == Some((base + 0x5a22) as u64));
    assert(final(table).get(vsched2_api::VdsoFn::InitVtableTask) == Some((base + 0x57a4) as u64));
    assert(final(table).get(vsched2_api::VdsoFn::InitVtableStack) == Some((base + 0x5770) as u64));
    assert(final(table).get(vsched2_api::VdsoFn::InitVtableContext) == Some((base + 0x571c) as u64));
    assert(final(table).get(vsched2_api::VdsoFn::InitVtableTrapInfo) == Some((base + 0x5810) as u64));
    assert(final(table).get(vsched2_api::VdsoFn::InitVtableSMP) == Some((base + 0x574c) as u64));
    assert(final(table).get(vsched2_api::VdsoFn::InitVtableVSpace) == Some((base + 0x5868) as u64));
    assert(final(table).get(vsched2_api::VdsoFn::InitVtableUserData) == Some((base + 0x5844) as u64));
}

/// Every function of the message queues is at its own place in the shared object, wherever that is,
/// and none is known before.
pub proof fn law_queues_functions_are_found(
    empty: vqueue_api::VdsoVTable,
    table: &mut vqueue_api::VdsoVTable,
    base: u64,
    f: vqueue_api::VdsoFn,
    before: Option<u64>,
    addr: Option<u64>,
)
    requires
        base <= u64::MAX - 0x6000,
        call_ensures(vqueue_api::VdsoVTable::new, (), empty),
        call_ensures(vqueue_api::VdsoVTable::entry, (&empty, f), before),
        call_ensures(vqueue_api::init_vdso_vtable, (table, base), ()),
        call_ensures(vqueue_api::VdsoVTable::entry, (&*final(table), f), addr),
    ensures
        before is None,
        f is RegisterProcess ==> addr == Some((base + 0x2140) as u64),
        final(table).register_process == Some((base + 0x2140) as u64),
        f is DequePush ==> addr == Some((base + 0x6fe) as u64),
        final(table).deque_push == Some((base + 0x6fe) as u64),
        f is DequePop ==> addr == Some((base + 0x4ca) as u64),
        final(table).deque_pop == Some((base + 0x4ca) as u64),
        f is SlotrefFromId ==> addr == Some((base + 0x24fe) as u64),
        final(table).slotref_from_id == Some((base + 0x24fe) as u64),
        f is GetPid ==> addr == Some((base + 0x934) as u64),
        final(table).get_pid == Some((base + 0x934) as u64),
        f is SetPid ==> addr == Some((base + 0x2408) as u64),
        final(table).set_pid == Some((base + 0x2408) as u64),
        f is MapAddEntry ==> addr == Some((base + 0xa24) as u64),
        final(table).map_add_entry == Some((base + 0xa24) as u64),
        f is MapGetNtfId ==> addr == Some((base + 0x1d8e) as u64),
        final(table).map_get_ntf_id == Some((base + 0x1d8e) as u64),
        f is MapPopNtfId ==> addr == Some((base + 0x1ec6) as u64),
        final(table).map_pop_ntf_id == Some((base + 0x1ec6) as u64),
{
    assert(final(table).get(vqueue_api::VdsoFn::RegisterProcess) == Some((base + 0x2140) as u64));
    assert(final(table).get(vqueue_api::VdsoFn::DequePush) == Some((base + 0x6fe) as u64));
    assert(final(table).get(vqueue_api::VdsoFn::DequePop) == Some((base + 0x4ca) as u64));
    assert(final(table).get(vqueue_api::VdsoFn::SlotrefFromId) == Some((base + 0x24fe) as u64));
    assert(final(table).get(vqueue_api::VdsoFn::GetPid) == Some((base + 0x934) as u64));
    assert(final(table).get(vqueue_api::VdsoFn::SetPid) == Some((base + 0x2408) as u64));
    assert(final(table).get(vqueue_api::VdsoFn::MapAddEntry) == Some((base + 0xa24) as u64));
    assert(final(table).get(vqueue_api::VdsoFn::MapGetNtfId) == Some((base + 0x1d8e) as u64));
    assert(final(table).get(vqueue_api::VdsoFn::MapPopNtfId) == Some((base + 0x1ec6) as u64));
}

/// Every function of the example is at its own place in the shared object, wherever that is,
/// and none is known before.
pub proof fn law_examples_functions_are_found(
    empty: example_api::VdsoVTable,
    table: &mut example_api::VdsoVTable,
    base: u64,
    f: example_api::VdsoFn,
    before: Option<u64>,
    addr: Option<u64>,
)
    requires
        base <= u64::MAX - 0x6000,
        call_ensures(example_api::VdsoVTable::new, (), empty),
        call_ensures(example_api::VdsoVTable::entry, (&empty, f), before),
        call_ensures(example_api::init_vdso_vtable, (table, base), ()),
        call_ensures(example_api::VdsoVTable::entry, (&*final(table), f), addr),
    ensures
        before is None,
        f is GetShared ==> addr == Some((base + 0x11d2) as u64),
        final(table).get_shared == Some((base + 0x11d2) as u64),
        f is SetShared ==> addr == Some((base + 0x12da) as u64),
        final(table).set_shared == Some((base + 0x12da) as u64),
        f is GetPrivate ==> addr == Some((base + 0x11b6) as u64),
        final(table).get_private == Some((base + 0x11b6) as u64),
        f is SetPrivate ==> addr == Some((base + 0x12be) as u64),
        final(table).set_private == Some((base + 0x12be) as u64),
        f is TestArgs ==> addr == Some((base + 0x1306) as u64),
        final(table).test_args == Some((base + 0x1306) as u64),
        f is TestCall ==> addr == Some((base + 0x1330) as u64),
        final(table).test_call == Some((base + 0x1330) as u64),
        f is InitVtableTestIf ==> addr == Some((base + 0x11f8) as u64),
        final(table).init_vtable_TestIf == Some((base + 0x11f8) as u64),
{
    assert(final(table).get(example_api::VdsoFn::GetShared) == Some((base + 0x11d2) as u64));
    assert(final(table).get(example_api::VdsoFn::SetShared) == Some((base + 0x12da) as u64));
    assert(final(table).get(example_api::VdsoFn::GetPrivate) == Some((base + 0x11b6) as u64));
    assert(final(table).get(example_api::VdsoFn::SetPrivate) == Some((base + 0x12be) as u64));
    assert(final(table).get(example_api::VdsoFn::TestArgs) == Some((base + 0x1306) as u64));
    assert(final(table).get(example_api::VdsoFn::TestCall) == Some((base + 0x1330) as u64));
    assert(final(table).get(example_api::VdsoFn::InitVtableTestIf) == Some((base + 0x11f8) as u64));
}

proof fn lemma_common(from: Seq<Seq<char>>, to: Seq<Seq<char>>)
    ensures
        common_names(from, to) <= from.len(),
        common_names(from, to) <= to.len(),
        forall|i: int| 0 <= i < common_names(from, to) ==> from[i] == to[i],
        common_names(from, to) < from.len() && common_names(from, to) < to.len()
            ==> from[common_names(from, to) as int] != to[common_names(from, to) as int],
    decreases from.len(),
{
    if from.len() > 0 && to.len() > 0 && from[0] == to[0] {
        lemma_common(from.skip(1), to.skip(1));
        let n = common_names(from.skip(1), to.skip(1));
        assert forall|i: int| 0 <= i < common_names(from, to) implies from[i] == to[i] by {
            if i > 0 {
                assert(from.skip(1)[i - 1] == to.skip(1)[i - 1]);
            }
        }
        if n + 1 < from.len() && n + 1 < to.len() {
            assert(from.skip(1)[n as int] == from[n as int + 1]);
            assert(to.skip(1)[n as int] == to[n as int + 1]);
        }
    }
}

/// Whether a path goes up from a directory `up` times, and then down to another.
pub open spec fn leads(
    from: Seq<Seq<char>>,
    to: Seq<Seq<char>>,
    path: Seq<Seq<char>>,
    up: nat,
) -> bool {
    &&& up <= from.len()
    &&& up <= path.len()
    &&& forall|i: int| 0 <= i < up ==> #[trigger] path[i] == ".."@
    &&& from.take(from.len() - up) + path.skip(up as int) == to
}

/// A relative path leads from the one directory to the other, and goes up no further than it
/// has to.
pub proof fn law_relative_path_leads_to_its_end(
    from: Vec<String>,
    to: Vec<String>,
    path: Vec<String>,
)
    requires
        call_ensures(relative_path, (&from, &to), path),
    ensures
        exists|up: nat|
            {
                &&& #[trigger] leads(names(from@), names(to@), names(path@), up)
                &&& 0 < up && from@.len() - up < to@.len() ==> from@[from@.len() - up]@
                    != to@[from@.len() - up]@
            },
{
    let f = names(from@);
    let t = names(to@);
    let p = names(path@);
    lemma_common(f, t);
    let common = common_names(f, t);
    let up = (f.len() - common) as nat;
    assert(p == relative_names(f, t));
    assert(p.skip(up as int) =~= t.skip(common as int));
    assert(f.take(f.len() - up) + p.skip(up as int) =~= t);
    assert(leads(f, t, p, up));
    assert(f.len() == from@.len() && t.len() == to@.len());
    assert(from@.len() - up == common);
    if common < f.len() && common < t.len() {
        assert(f[common as int] == from@[common as int]@);
        assert(t[common as int] == to@[common as int]@);
    }
}

/// A list of features has each of them in quotation marks, with a comma between one and the
/// next.
pub proof fn law_features_are_listed(features: Seq<Seq<char>>, next: Seq<char>)
    ensures
        feature_list(Seq::empty()) == ""@,
        feature_list(seq![next]) == "\""@ + next + "\""@,
        features.len() > 0 ==> feature_list(features.push(next)) == feature_list(features)
            + ", \""@ + next + "\""@,
{
    reveal_strlit("");
    assert(feature_list(Seq::empty()) =~= ""@);
    assert(seq![next][0] == next);
    assert(features.push(next).drop_last() =~= features);
}

/// The manifest of a wrapper depends on the package that it wraps, at its path and with its
/// features, and the code of a wrapper hands on what that package has.
pub proof fn law_wrapper_wraps_its_package(
    config: BuildConfig,
    path: &str,
    manifest: String,
    code: String,
)
    requires
        call_ensures(cargo_toml_content, (&config, path), manifest),
        call_ensures(lib_rs_content, (&config,), code),
    ensures
        ({
            let line = config.package_name@ + " = { path = \""@ + path@ + "\", features = ["@
                + feature_list(names(config.features@)) + "] }\n"@;
            &&& manifest@.len() >= line.len()
            &&& manifest@.skip(manifest@.len() - line.len()) == line
        }),
        ({
            let head = "#![no_std]\n\npub use "@;
            let after = head.len() + config.package_name@.len();
            &&& code@.len() > after
            &&& code@.take(head.len() as int) == head
            &&& code@.subrange(head.len() as int, after as int) == config.package_name@
        }),
{
    let line = config.package_name@ + " = { path = \""@ + path@ + "\", features = ["@
        + feature_list(names(config.features@)) + "] }\n"@;
    let head = crate::vdso::wrapper::MANIFEST_HEAD@;
    assert(manifest@ =~= head + line);
    assert(manifest@.skip(manifest@.len() - line.len()) =~= line);
    let first = "#![no_std]\n\npub use "@;
    let name = config.package_name@;
    let tail = crate::vdso::wrapper::WRAPPER_TAIL@;
    reveal_strlit("::*;\n\n#[panic_handler]\nfn panic(_info: &core::panic::PanicInfo) -> ! {\n    panic_loop();\n}\n\n/// 导出此符号，从而确认当在vdso中panic时，会在哪个地址循环。\n#[no_mangle]\npub fn panic_loop() -> ! {\n    loop {}\n}\n\n");
    assert(code@ =~= first + name + tail);
    assert(code@.take(first.len() as int) =~= first);
    assert(code@.subrange(first.len() as int, (first.len() + name.len()) as int) =~= name);
}

} // verus!
