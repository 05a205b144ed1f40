use salon_core::library::Library;
use salon_core::library::LibraryImageIdentifier;
use salon_core::local_library::AddImageResult;
use salon_core::local_library::Library as LibraryTrait;
use salon_core::local_library::LocalLibrary;
use salon_core::runtime::ColorSpace;
use salon_core::runtime::ImageFormat;
use salon_core::runtime::ImageProperties;
use salon_core::runtime::Runtime;
use salon_core::toolbox::Toolbox;
use salon_core::ui_state::add_masked_edit;
use salon_core::ui_state::delete_mask_term;
use salon_core::ui_state::mask_primtive_type_str;
use salon_core::ui_state::maybe_select_term;
use salon_core::ui_state::menu_dots;
use salon_core::ui_state::select_mask;
use salon_core::ui_state::AppUiState;

fn decoded_image(runtime: &mut Runtime, w: u32, h: u32) -> salon_core::runtime::Image {
    runtime.create_image_of_properties(ImageProperties {
        dimensions: (w, h),
        format: ImageFormat::Rgba8Unorm,
        color_space: ColorSpace::SrgbNonLinear,
    })
}

#[test]
fn temp_images_are_numbered_and_converted() {
    let mut decoder_runtime = Runtime::new();
    let img = decoded_image(&mut decoder_runtime, 2000, 1000);
    let mut library = Library::new(Runtime::new(), Toolbox::new());
    let id = library.add_image_temp(img);
    assert_eq!(id, LibraryImageIdentifier::Temp(0));
    assert_eq!(library.num_temp_images(), 1);
    assert_eq!(library.num_images_total(), 1);
    let stored = library.get_image_from_identifier(&id).expect("stored image");
    assert_eq!(stored.properties.format, ImageFormat::Rgba16Float);
    assert_eq!(stored.properties.color_space, ColorSpace::LinearRGB);
    assert_eq!(stored.properties.dimensions, (2000, 1000));
    // 1000 texels on the shorter edge is over twice the thumbnail
    // size, so the thumbnail is downscaled to a 400 texel short edge
    let thumb = library.get_thumbnail_from_identifier(&id).expect("thumbnail");
    assert_eq!(thumb.properties.dimensions, (800, 400));
}

#[test]
fn small_images_are_their_own_thumbnail() {
    let mut decoder_runtime = Runtime::new();
    let img = decoded_image(&mut decoder_runtime, 640, 480);
    let mut library = Library::new(Runtime::new(), Toolbox::new());
    let id = library.add_image_temp(img);
    let thumb = library.get_thumbnail_from_identifier(&id).expect("thumbnail");
    assert_eq!(thumb.properties.dimensions, (640, 480));
}

#[test]
fn paths_persist_in_display_order() {
    let mut library = Library::new(Runtime::new(), Toolbox::new());
    library.add_item_from_path("a.png".to_string());
    library.add_item_from_path("b.jpg".to_string());
    let mut decoder_runtime = Runtime::new();
    let img = decoded_image(&mut decoder_runtime, 100, 100);
    library.add_image_temp(img);
    let state = library.get_persistent_state();
    assert_eq!(state.paths, vec!["a.png".to_string(), "b.jpg".to_string()]);

    let mut restored = Library::new(Runtime::new(), Toolbox::new());
    restored.load_persistent_state(state);
    assert_eq!(restored.num_images_total(), 2);
    assert_eq!(
        restored.get_identifier_at_index(0),
        &LibraryImageIdentifier::Path("a.png".to_string())
    );
    assert!(restored
        .get_image_from_identifier(&LibraryImageIdentifier::Path("a.png".to_string()))
        .is_none());
}

#[test]
fn ensure_loaded_installs_a_decoded_image() {
    let mut library = Library::new(Runtime::new(), Toolbox::new());
    let id = library.add_item_from_path("photo.png".to_string());
    assert!(library.get_image_from_identifier(&id).is_none());
    // with nothing decoded an unloaded entry cannot be brought up
    assert!(library.ensure_loaded(&id, None).is_err());
    assert!(library.get_image_from_identifier(&id).is_none());
    let mut decoder_runtime = Runtime::new();
    let img = decoded_image(&mut decoder_runtime, 300, 200);
    assert!(library.ensure_loaded(&id, Some(img)).is_ok());
    let loaded = library.get_image_from_identifier(&id).expect("loaded image");
    assert_eq!(loaded.properties.dimensions, (300, 200));
    assert!(library.get_thumbnail_from_identifier(&id).is_some());
    // an already loaded entry needs nothing decoded
    assert!(library.ensure_loaded(&id, None).is_ok());
    assert!(library.get_image_from_identifier(&id).is_some());
    // an unknown identifier with nothing decoded is an error
    let missing = LibraryImageIdentifier::Temp(99);
    assert!(library.ensure_loaded(&missing, None).is_err());
}

#[test]
fn thumbnail_path_needs_a_readable_file() {
    let library = Library::new(Runtime::new(), Toolbox::new());
    let storage = String::from("/tmp/storage");
    let missing = String::from("no-such-file-anywhere.xyz");
    assert!(library.get_thumbnail_path_for_image_path(&missing, &storage).is_none());
    // a file that surely exists and is readable while tests run
    let readable = String::from("/proc/self/status");
    let path = library
        .get_thumbnail_path_for_image_path(&readable, &storage)
        .expect("a digest for a readable file");
    assert!(path.starts_with("/tmp/storage/thumbnails/"));
    assert!(path.ends_with(".jpg"));
    assert_eq!(path.len(), "/tmp/storage/thumbnails/".len() + 64 + ".jpg".len());
}

#[test]
fn local_library_rejects_missing_files_and_deduplicates() {
    let mut library = LocalLibrary::new(Runtime::new());
    match library.add("no-such-file-anywhere.xyz") {
        AddImageResult::Error(msg) => assert!(msg.contains("cannot open")),
        _ => panic!("a missing file must be rejected"),
    }
    match library.add("/proc/self/status") {
        AddImageResult::AddedNewImage(i) => assert_eq!(i, 0),
        _ => panic!("an existing file must be added"),
    }
    match library.add("/proc/self/status") {
        AddImageResult::ImageAlreadyExists(i) => assert_eq!(i, 0),
        _ => panic!("a known path must not be added twice"),
    }
    assert_eq!(library.num_images(), 1);
    assert!(library.get_image(0).is_none());
    let mut decoder_runtime = Runtime::new();
    let img = decoded_image(&mut decoder_runtime, 10, 10);
    library.insert_image(0, img);
    assert!(library.get_image(0).is_some());
    assert!(library.get_thumbnail(0).is_some());
    assert!(library.get_image(5).is_none());
}

#[test]
fn mask_selection_follows_the_panel_actions() {
    let mut ui = AppUiState::new();
    select_mask(&mut ui, 3);
    assert_eq!(ui.selected_mask_index, 3);
    assert_eq!(ui.selected_mask_term_index, None);
    maybe_select_term(&mut ui, 1);
    assert_eq!(ui.selected_mask_term_index, Some(1));
    maybe_select_term(&mut ui, 1);
    assert_eq!(ui.selected_mask_term_index, None);
    maybe_select_term(&mut ui, 2);
    assert_eq!(ui.selected_mask_term_index, Some(2));
}

#[test]
fn deleting_the_last_term_removes_the_mask() {
    let mut edit = salon_core::edit::Edit::new();
    let mut ui = AppUiState::new();
    add_masked_edit(
        &mut edit,
        &mut ui,
        salon_core::ir::MaskPrimitive::RadialGradient(salon_core::ir::RadialGradientMask {
            center_x: 5000,
            center_y: 5000,
            radius_x: 2500,
            radius_y: 2500,
            feather: 0,
            rotation: 0,
        }),
    );
    assert_eq!(edit.masked_edits.len(), 2);
    assert_eq!(ui.selected_mask_index, 1);
    assert_eq!(ui.selected_mask_term_index, Some(0));
    delete_mask_term(&mut edit, &mut ui, 1, 0);
    assert_eq!(edit.masked_edits.len(), 1);
    assert_eq!(ui.selected_mask_index, 0);
    assert_eq!(ui.selected_mask_term_index, None);
}

#[test]
fn mask_labels_name_the_primitives() {
    let global = salon_core::ir::MaskPrimitive::Global(salon_core::ir::GlobalMask {});
    assert_eq!(mask_primtive_type_str(&global), "Global");
    assert_eq!(menu_dots(), "\u{2022}\u{2022}\u{2022}");
}

#[test]
fn temporary_identifiers_stay_fresh() {
    let mut decoder_runtime = Runtime::new();
    let mut library = Library::new(Runtime::new(), Toolbox::new());
    let a = decoded_image(&mut decoder_runtime, 16, 16);
    let b = decoded_image(&mut decoder_runtime, 32, 32);
    let id_a = library.add_image_temp(a);
    let id_b = library.add_image_temp(b);
    assert_eq!(id_a, LibraryImageIdentifier::Temp(0));
    assert_eq!(id_b, LibraryImageIdentifier::Temp(1));
    assert_eq!(library.num_images_total(), 2);
    let got_a = library.get_image_from_identifier(&id_a).expect("first image kept");
    assert_eq!(got_a.properties.dimensions, (16, 16));
}
