//! Shared objects: their images, how they are mapped, their functions and their data.

use std::collections::BTreeMap;

use vsched::abi::process::VschedProcessId;
use vsched::vdso::elf::{
    check_elf_headers, check_load_span, checked_vdso_runtime_size, load_span, vdso_runtime_size,
};
use vsched::vdso::example_api;
use vsched::vdso::loader::{
    map_so, region_actions, vdso_size, vvar_size, ElfSegment, MappingFlags, PageSource,
    RegionAction, RegionContent,
    RelocatePair,
};
use vsched::vdso::placement::{
    get_kernel_vaddr, place_vdso, ppage_alloc, starry_vsched_init, starry_vvar_data, valloc,
    vdso_init, VdsoPlacement,
};
use vsched::vdso::starry::StarryVvar;
use vsched::vdso::vqueue_api;
use vsched::vdso::vsched2_api;
use vsched::vdso::wrapper::{cargo_toml_content, lib_rs_content, relative_path, BuildConfig};

fn put(image: &mut Vec<u8>, at: usize, bytes: &[u8]) {
    if image.len() < at + bytes.len() {
        image.resize(at + bytes.len(), 0);
    }
    image[at..at + bytes.len()].copy_from_slice(bytes);
}

fn elf64(headers: &[(u32, u64, u64)]) -> Vec<u8> {
    let mut image = vec![0u8; 64];
    put(&mut image, 0, &[0x7f, b'E', b'L', b'F', 2, 1, 1]);
    put(&mut image, 32, &64u64.to_le_bytes());
    put(&mut image, 54, &56u16.to_le_bytes());
    put(&mut image, 56, &(headers.len() as u16).to_le_bytes());
    for (i, (kind, vaddr, mem_size)) in headers.iter().enumerate() {
        let at = 64 + i * 56;
        put(&mut image, at, &[0; 56]);
        put(&mut image, at, &kind.to_le_bytes());
        put(&mut image, at + 16, &vaddr.to_le_bytes());
        put(&mut image, at + 40, &mem_size.to_le_bytes());
    }
    image
}

fn elf32(headers: &[(u32, u32, u32)]) -> Vec<u8> {
    let mut image = vec![0u8; 52];
    put(&mut image, 0, &[0x7f, b'E', b'L', b'F', 1, 1, 1]);
    put(&mut image, 28, &52u32.to_le_bytes());
    put(&mut image, 42, &32u16.to_le_bytes());
    put(&mut image, 44, &(headers.len() as u16).to_le_bytes());
    for (i, (kind, vaddr, mem_size)) in headers.iter().enumerate() {
        let at = 52 + i * 32;
        put(&mut image, at, &[0; 32]);
        put(&mut image, at, &kind.to_le_bytes());
        put(&mut image, at + 8, &vaddr.to_le_bytes());
        put(&mut image, at + 20, &mem_size.to_le_bytes());
    }
    image
}

#[test]
fn an_image_takes_the_pages_of_its_segments() {
    let image = elf64(&[(1, 0, 0x1800), (4, 0x9000, 0x100), (1, 0x2ff0, 0x20)]);
    assert!(check_elf_headers(&image));
    assert_eq!(checked_vdso_runtime_size(&image), Some(0x4000));
    assert_eq!(vdso_runtime_size(&image), 0x4000);
    let image = elf32(&[(1, 0x10, 0x10), (1, 0x1000, 0x1001)]);
    assert_eq!(checked_vdso_runtime_size(&image), Some(0x3000));
}

#[test]
fn an_image_that_cannot_be_loaded_has_no_size() {
    assert_eq!(checked_vdso_runtime_size(&[]), None);
    assert_eq!(checked_vdso_runtime_size(b"no object at all, but long enough"), None);
    assert_eq!(checked_vdso_runtime_size(&elf64(&[])), None);
    assert_eq!(checked_vdso_runtime_size(&elf64(&[(2, 0, 0x1000)])), None);
    assert_eq!(checked_vdso_runtime_size(&elf64(&[(1, 0x1000, 0x1000)])), None);
    assert_eq!(checked_vdso_runtime_size(&elf64(&[(1, 0, u64::MAX)])), None);
    let mut short = elf64(&[(1, 0, 0x1000)]);
    short.truncate(100);
    assert!(!check_elf_headers(&short));
    assert_eq!(checked_vdso_runtime_size(&short), None);
    let mut class = elf64(&[(1, 0, 0x1000)]);
    class[4] = 3;
    assert_eq!(checked_vdso_runtime_size(&class), None);
    let mut unaligned = elf64(&[(1, 0, 0x1000)]);
    put(&mut unaligned, 32, &65u64.to_le_bytes());
    unaligned.push(0);
    assert!(!check_elf_headers(&unaligned));
}

#[test]
fn the_span_of_headers_ends_with_the_last_page() {
    let headers = vec![(true, 0u64, 1u64), (false, 0x10000, 0x1000), (true, 0x1fff, 2)];
    assert!(check_load_span(&headers));
    assert_eq!(load_span(&headers), 0x3000);
    assert!(!check_load_span(&vec![(false, 0, 1)]));
}

#[test]
fn an_object_lies_above_its_data() {
    let placement = place_vdso(0x90_5000, 0x4000, 0x1000, 0x90_0000);
    assert_eq!(
        placement,
        VdsoPlacement {
            vdso_start_pa: 0x5000,
            vdso_size: 0x4000,
            vvar_start_pa: 0x4000,
            vvar_size: 0x1000,
        }
    );
    let image = elf64(&[(1, 0, 0x3001)]);
    assert_eq!(vdso_init(&image, 0x90_5000, 0x1000, 0x90_0000), Some(placement));
    assert_eq!(vdso_init(&[], 0x90_5000, 0x1000, 0x90_0000), None);
    let mut vvar = StarryVvar::new();
    assert_eq!(
        starry_vsched_init(&image, 0x90_5000, 0x1000, 0x90_0000, &mut vvar),
        Some(placement)
    );
    assert_eq!(vvar.stage_a_get_shared(), 0x5354_4152_5259_5641);
    assert_eq!(starry_vvar_data(placement.vvar_start_pa, 0x90_0000), 0x90_4000);
    assert_eq!(ppage_alloc(0x3000), 3);
    assert_eq!(valloc(0x21000, 0x1e000), 0x21000);
    assert_eq!(valloc(0x1000, 0x1e000), 0x1e000);
    let mut pages = BTreeMap::new();
    pages.insert(0x7000, 0x2000);
    assert_eq!(get_kernel_vaddr(&pages, 0x7123, 0x90_0000), 0x90_2123);
}

#[test]
fn the_shared_counter_wraps_around() {
    let mut vvar = StarryVvar::new();
    assert_eq!(vvar.stage_a_get_shared(), 0);
    vvar.stage_a_set_shared(usize::MAX);
    assert_eq!(vvar.stage_a_fetch_add(3), usize::MAX);
    assert_eq!(vvar.stage_a_get_shared(), 2);
    let process = VschedProcessId::from_user_raw(1).unwrap();
    let key = vvar.task_table.allocate(process, 0).unwrap();
    assert!(vvar.user_task_table().is_live(key));
}

fn flags(read: bool, write: bool, execute: bool) -> MappingFlags {
    MappingFlags { read, write, execute, user: true }
}

fn segments() -> Vec<ElfSegment> {
    vec![
        ElfSegment {
            vaddr: 0x2000,
            size: 0x10,
            flags: flags(true, false, true),
            data: Some(vec![1, 2, 3]),
        },
        ElfSegment { vaddr: 0x3000, size: 0, flags: flags(true, false, false), data: None },
        ElfSegment {
            vaddr: 0x4000,
            size: 0x1001,
            flags: flags(true, true, false),
            data: Some(vec![9; 16]),
        },
        ElfSegment { vaddr: 0x6000, size: 0x8, flags: flags(true, false, false), data: None },
    ]
}

#[test]
fn an_object_is_loaded_and_relocated_into_the_kernel() {
    let pairs = vec![RelocatePair { src: 0x1122334455667788, dst: 0x4004, count: 8 }];
    let (plans, start) = map_so(0x1000, 0x1000, &segments(), &pairs, true);
    assert_eq!(start, 0x2000);
    assert_eq!(plans.len(), 4);
    assert_eq!(plans[0].vaddr, 0x1000);
    assert!(matches!(plans[0].content, RegionContent::SharedData));
    assert!(plans.iter().all(|p| p.pages == PageSource::AllocateAndKeep && !p.flags.user));
    assert_eq!(plans[2].size, 0x2000);
    match &plans[2].content {
        RegionContent::Bytes { bytes, direct } => {
            assert!(!*direct);
            assert_eq!(bytes.len(), 0x2000);
            assert_eq!(&bytes[..4], &[9, 9, 9, 9]);
            assert_eq!(&bytes[4..12], &[0x88, 0x77, 0x66, 0x55, 0x44, 0x33, 0x22, 0x11]);
            assert_eq!(&bytes[12..17], &[9, 9, 9, 9, 0]);
        }
        _ => panic!("a segment is loaded"),
    }
    match &plans[3].content {
        RegionContent::Bytes { bytes, direct } => {
            assert!(*direct);
            assert!(bytes.iter().all(|b| *b == 0));
        }
        _ => panic!("a segment is loaded"),
    }
    assert!(plans[1].map_flags.write);
    assert!(!plans[1].flags.write);
}

#[test]
fn code_is_shared_with_other_address_spaces() {
    let (plans, _) = map_so(0x1000, 0x1000, &segments(), &vec![], false);
    assert_eq!(plans[0].pages, PageSource::Shared { region: 0 });
    assert_eq!(plans[1].pages, PageSource::Shared { region: 1 });
    assert!(matches!(plans[1].content, RegionContent::Unchanged));
    assert_eq!(plans[2].pages, PageSource::Allocate);
    assert!(matches!(plans[2].content, RegionContent::Bytes { .. }));
    assert!(plans.iter().all(|p| p.flags.user));
}

#[test]
fn user_space_sees_a_segment_when_it_is_loaded() {
    let (plans, _) = map_so(0x1000, 0x1000, &segments(), &vec![], false);
    for plan in &plans[1..] {
        assert!(plan.map_flags.write);
        assert!(!plan.map_flags.user);
        assert_eq!(plan.map_flags.read, plan.flags.read);
        assert_eq!(plan.map_flags.execute, plan.flags.execute);
        let actions = region_actions(plan);
        assert_eq!(actions[0], RegionAction::MapPages { flags: plan.map_flags });
        assert_eq!(actions[actions.len() - 1], RegionAction::Protect { flags: plan.flags });
    }
    assert_eq!(region_actions(&plans[0]), vec![RegionAction::MapPages { flags: plans[0].flags }]);
    assert_eq!(region_actions(&plans[1]).len(), 2);
    assert_eq!(region_actions(&plans[2])[1], RegionAction::Write);
    let (plans, _) = map_so(0x1000, 0x1000, &segments(), &vec![], true);
    assert!(plans.iter().all(|p| !p.flags.user && !p.map_flags.user));
    assert_eq!(
        region_actions(&plans[0]),
        vec![RegionAction::MapPages { flags: plans[0].flags }, RegionAction::Write]
    );
}

#[test]
fn areas_are_whole_pages() {
    assert_eq!(vdso_size(0x1001), 0x3000);
    assert_eq!(vdso_size(0x1000), 0x2000);
    assert_eq!(vvar_size(1), 0x1000);
    assert_eq!(vvar_size(0x1000), 0x1000);
}

#[test]
fn functions_are_found_from_the_base_on() {
    let mut table = vsched2_api::VdsoVTable::new();
    assert_eq!(table.entry(vsched2_api::VdsoFn::RawRunTask), None);
    vsched2_api::init_vdso_vtable(&mut table, 0x10000);
    assert_eq!(table.entry(vsched2_api::VdsoFn::RawRunTask), Some(0x1098e));
    assert_eq!(table.entry(vsched2_api::VdsoFn::KernelInitMain), Some(0x14168));
    assert_eq!(table.entry(vsched2_api::VdsoFn::InitLog), Some(0x15a22));
    let mut table = vqueue_api::VdsoVTable::new();
    assert_eq!(table.entry(vqueue_api::VdsoFn::DequePush), None);
    vqueue_api::init_vdso_vtable(&mut table, 0x10000);
    assert_eq!(table.entry(vqueue_api::VdsoFn::DequePush), Some(0x106fe));
    assert_eq!(table.entry(vqueue_api::VdsoFn::SlotrefFromId), Some(0x124fe));
    let mut table = example_api::VdsoVTable::new();
    assert_eq!(table.entry(example_api::VdsoFn::TestCall), None);
    example_api::init_vdso_vtable(&mut table, 0x10000);
    assert_eq!(table.entry(example_api::VdsoFn::TestCall), Some(0x11330));
    assert_eq!(table.entry(example_api::VdsoFn::GetShared), Some(0x111d2));
}

fn names(path: &[&str]) -> Vec<String> {
    path.iter().map(|name| String::from(*name)).collect()
}

#[test]
fn a_relative_path_goes_up_and_down() {
    assert_eq!(
        relative_path(&names(&["/", "work", "out", "wrapper"]), &names(&["/", "work", "src"])),
        names(&["..", "..", "src"])
    );
    assert_eq!(
        relative_path(&names(&["/", "a"]), &names(&["/", "a", "b", "c"])),
        names(&["b", "c"])
    );
    assert_eq!(relative_path(&names(&["/", "a", "b"]), &names(&["/"])), names(&["..", ".."]));
}

#[test]
fn a_wrapper_names_the_package_and_its_features() {
    let config = BuildConfig {
        package_name: String::from("vsched2"),
        features: names(&["vdso_only", "log"]),
    };
    let manifest = cargo_toml_content(&config, "../../deps/vsched2");
    assert!(manifest.starts_with("[package]\nname = \"vdso_wrapper\"\nedition = \"2021\"\n\n[lib]\n"));
    assert!(manifest.ends_with(
        "[dependencies]\nvsched2 = { path = \"../../deps/vsched2\", features = [\"vdso_only\", \"log\"] }\n"
    ));
    let plain = BuildConfig { package_name: String::from("vqueue"), features: vec![] };
    assert!(cargo_toml_content(&plain, "q").ends_with("vqueue = { path = \"q\", features = [] }\n"));
    let code = lib_rs_content(&plain);
    assert!(code.starts_with("#![no_std]\n\npub use vqueue::*;\n\n#[panic_handler]\n"));
    assert!(code.ends_with("pub fn panic_loop() -> ! {\n    loop {}\n}\n\n"));
}
