use windows_exe_info::counter::IdCounter;
use windows_exe_info::icon::{
    format_for, icon_format, icon_script, icon_script_path, pack_args, scale, scale_args,
    to_png_args, IconFormat,
};
use windows_exe_info::link::{
    link_directive, object_file, windres_args, windres_program, Arch,
};
use windows_exe_info::manifest::{manifest_script, manifest_script_path};

#[test]
fn counter_hands_out_identifiers_in_a_row() {
    let mut counter = IdCounter::new();
    assert_eq!(counter.peek(), 0);
    for expected in 0..4u16 {
        assert_eq!(counter.peek(), expected);
        assert_eq!(counter.take(), expected);
    }
    assert_eq!(counter.peek(), 4);
}

#[test]
fn counter_goes_round_after_the_last_identifier() {
    let mut counter = IdCounter::new();
    for expected in 0..=u16::MAX {
        assert_eq!(counter.take(), expected);
    }
    assert_eq!(counter.take(), 0);
    assert_eq!(counter.take(), 1);
}

#[test]
fn icon_format_by_extension() {
    assert_eq!(icon_format("icon.ico"), IconFormat::Ico);
    assert_eq!(icon_format("assets/logo.png"), IconFormat::Png);
    assert_eq!(icon_format("assets/logo.svg"), IconFormat::Other);
    assert_eq!(icon_format("assets/logo.ICO"), IconFormat::Other);
    assert_eq!(icon_format("archive.tar.png"), IconFormat::Png);
    assert_eq!(icon_format("png"), IconFormat::Other);
    assert_eq!(icon_format(".png"), IconFormat::Other);
    assert_eq!(icon_format("dir.png/file"), IconFormat::Other);
    assert_eq!(icon_format("dir/file.ico/"), IconFormat::Ico);
    assert_eq!(icon_format(""), IconFormat::Other);
    assert_eq!(icon_format("ico.ico.bmp"), IconFormat::Other);
}

#[test]
fn format_for_an_extension() {
    assert_eq!(format_for(&Some(String::from("ico"))), IconFormat::Ico);
    assert_eq!(format_for(&Some(String::from("png"))), IconFormat::Png);
    assert_eq!(format_for(&Some(String::from("Png"))), IconFormat::Other);
    assert_eq!(format_for(&Some(String::from(""))), IconFormat::Other);
    assert_eq!(format_for(&Some(String::from("icon"))), IconFormat::Other);
    assert_eq!(format_for(&None), IconFormat::Other);
}

#[test]
fn icon_scripts() {
    assert_eq!(icon_script(0, "icon.ico"), "icon0 ICON \"icon.ico\"\n");
    assert_eq!(icon_script(12, "C:\\out\\icon.ico"), "icon12 ICON \"C:/out/icon.ico\"\n");
    assert_eq!(icon_script(65535, ""), "icon65535 ICON \"\"\n");
    // a path that holds the pattern of the identifier has it replaced too
    assert_eq!(icon_script(3, "a[ID]b"), "icon3 ICON \"aicon3b\"\n");
    assert_eq!(icon_script(3, "a[PATH]b"), "icon3 ICON \"a[PATH]b\"\n");
    for path in ["x.ico", "dir\\x.ico", "[ID]", "[PATH][ID]", "a b", "ü\\ö"] {
        let expected = "[ID] ICON \"[PATH]\"\n"
            .replace("[PATH]", &path.replace('\\', "/"))
            .replace("[ID]", &format!("icon{}", 7));
        assert_eq!(icon_script(7, path), expected);
    }
    assert_eq!(icon_script_path("/tmp/out", 0), "/tmp/out/icon0.rc");
    assert_eq!(icon_script_path("", 41), "/icon41.rc");
}

#[test]
fn manifest_scripts() {
    assert_eq!(
        manifest_script(0, "app.manifest"),
        "#define RT_MANIFEST 24\nmanifest0 RT_MANIFEST \"app.manifest\"\n"
    );
    assert_eq!(
        manifest_script(9, "res\\app.manifest"),
        "#define RT_MANIFEST 24\nmanifest9 RT_MANIFEST \"res/app.manifest\"\n"
    );
    for path in ["x", "dir\\x", "[ID]", "[PATH][ID]", "a b"] {
        let expected = "#define RT_MANIFEST 24\n[ID] RT_MANIFEST \"[PATH]\"\n"
            .replace("[PATH]", &path.replace('\\', "/"))
            .replace("[ID]", &format!("manifest{}", 300));
        assert_eq!(manifest_script(300, path), expected);
    }
    assert_eq!(manifest_script_path("/tmp/out", 2), "/tmp/out/manifest2.rc");
}

#[test]
fn windres_arguments() {
    assert_eq!(
        windres_args("/out/info.rc", Some(Arch::X64)),
        ["-i", "/out/info.rc", "-O", "coff", "-F", "pe-x86-64", "-o", "/out/info.rc.a", "-v"]
    );
    assert_eq!(
        windres_args("/out/info.rc", Some(Arch::X86)),
        ["-i", "/out/info.rc", "-O", "coff", "-F", "pe-i386", "-o", "/out/info.rc.a", "-v"]
    );
    assert_eq!(
        windres_args("/out/info.rc", None),
        ["-i", "/out/info.rc", "-O", "coff", "-o", "/out/info.rc.a", "-v"]
    );
    // a path with a blank is taken apart like the rest of the line
    assert_eq!(
        windres_args("my dir/info.rc", None),
        ["-i", "my", "dir/info.rc", "-O", "coff", "-o", "my", "dir/info.rc.a", "-v"]
    );
    for path in ["info.rc", "a b.rc", "[OUTPUT]", "[ARCH].rc", ""] {
        let object = format!("{}.a", path);
        let line = "-i [INPUT] -O coff -F [ARCH] -o [OUTPUT] -v"
            .replace("[INPUT]", path)
            .replace("[OUTPUT]", &object)
            .replace("[ARCH]", "pe-i386");
        let expected: Vec<String> = line.split(" ").map(String::from).collect();
        assert_eq!(windres_args(path, Some(Arch::X86)), expected);
        let line =
            "-i [INPUT] -O coff -o [OUTPUT] -v".replace("[INPUT]", path).replace("[OUTPUT]", &object);
        let expected: Vec<String> = line.split(" ").map(String::from).collect();
        assert_eq!(windres_args(path, None), expected);
    }
}

#[test]
fn windres_names_and_files() {
    assert_eq!(windres_program(true, Arch::X64), "windres");
    assert_eq!(windres_program(true, Arch::X86), "windres");
    assert_eq!(windres_program(false, Arch::X64), "x86_64-w64-mingw32-windres");
    assert_eq!(windres_program(false, Arch::X86), "i686-w64-mingw32-windres");
    assert_eq!(Arch::X64.name(), "pe-x86-64");
    assert_eq!(Arch::X86.name(), "pe-i386");
    assert_eq!(object_file("/out/icon3.rc"), "/out/icon3.rc.a");
    assert_eq!(link_directive("/out/icon3.rc"), "cargo:rustc-link-arg=/out/icon3.rc.a");
}

#[test]
fn image_tool_arguments() {
    let sizes = ["8", "16", "32", "48", "64", "128", "256"];
    for (k, size) in sizes.iter().enumerate() {
        assert_eq!(scale(k), *size);
    }
    assert_eq!(
        scale_args("logo.png", 1, "/out"),
        [
            "convert",
            "logo.png",
            "-scale",
            "16x16",
            "-extent",
            "16x16",
            "-background",
            "None",
            "-alpha",
            "on",
            "/out16.png"
        ]
    );
    for input in ["logo.png", "my logo.png", "a\nb", "[SCALE].png", "[OUTPUT]"] {
        for (k, size) in sizes.iter().enumerate() {
            let line = "convert [INPUT] -scale [SCALE]x[SCALE] -extent [SCALE]x[SCALE] -background None -alpha on [OUTPUT][SCALE].png"
                .replace("[INPUT]", input)
                .replace("[SCALE]", size)
                .replace("[OUTPUT]", "/o ut")
                .replace('\n', " ");
            let expected: Vec<String> = line.split(" ").map(String::from).collect();
            assert_eq!(scale_args(input, k, "/o ut"), expected);
        }
    }
    assert_eq!(
        pack_args("/out", "/out/icon.ico"),
        [
            "convert",
            "/out8.png",
            "/out16.png",
            "/out32.png",
            "/out48.png",
            "/out64.png",
            "/out128.png",
            "/out256.png",
            "/out/icon.ico"
        ]
    );
    assert_eq!(pack_args("my out", "an icon.ico")[1], "my out8.png");
    assert_eq!(pack_args("my out", "an icon.ico")[8], "an icon.ico");
    assert_eq!(
        to_png_args("logo.svg", "/out/icon.png"),
        [
            "convert",
            "logo.svg",
            "-background",
            "None",
            "-alpha",
            "on",
            "-scale",
            "256x256",
            "-layers",
            "merge",
            "/out/icon.png"
        ]
    );
    for input in ["logo.svg", "my logo.svg", "[OUTPUT]"] {
        let line = "convert [INPUT] -background None -alpha on -scale 256x256 -layers merge [OUTPUT]"
            .replace("[INPUT]", input)
            .replace("[OUTPUT]", "/out/icon.png");
        let expected: Vec<String> = line.split(" ").map(String::from).collect();
        assert_eq!(to_png_args(input, "/out/icon.png"), expected);
    }
}

#[test]
fn multi_icon_id() {
    const ITERATIONS: u16 = 4;
    let out_dir = "/tmp/out";
    let mut counter = IdCounter::new();

    for i in 0..ITERATIONS {
        let id = counter.take();
        assert_eq!(icon_script_path(out_dir, id), format!("{out_dir}/icon{i}.rc"));
        assert_eq!(
            icon_script(id, "/tmp/out/icon.ico"),
            format!("icon{i} ICON \"/tmp/out/icon.ico\"\n")
        );
        assert_eq!(
            object_file(&icon_script_path(out_dir, id)),
            format!("{out_dir}/icon{i}.rc.a")
        );
    }

    assert_eq!(counter.peek(), ITERATIONS);
}

/// The format of a bare file name, by what stands behind its last dot.
fn format_by_last_dot(name: &str) -> IconFormat {
    if name == ".." {
        return IconFormat::Other;
    }
    match name.rfind('.') {
        None | Some(0) => IconFormat::Other,
        Some(k) => match &name[k + 1..] {
            "ico" => IconFormat::Ico,
            "png" => IconFormat::Png,
            _ => IconFormat::Other,
        },
    }
}

#[test]
fn icon_format_of_chosen_bare_names() {
    assert_eq!(icon_format("x.ico"), IconFormat::Ico);
    assert_eq!(icon_format("x.png"), IconFormat::Png);
    assert_eq!(icon_format("..ico"), IconFormat::Ico);
    assert_eq!(icon_format("a.b.png"), IconFormat::Png);
    assert_eq!(icon_format("my icon.ico"), IconFormat::Ico);
    assert_eq!(icon_format(".ico"), IconFormat::Other);
    assert_eq!(icon_format("ico"), IconFormat::Other);
    assert_eq!(icon_format(".."), IconFormat::Other);
    assert_eq!(icon_format("."), IconFormat::Other);
    assert_eq!(icon_format("..."), IconFormat::Other);
    assert_eq!(icon_format("x.ico."), IconFormat::Other);
    assert_eq!(icon_format("x.icon"), IconFormat::Other);
    assert_eq!(icon_format("x.png.ico"), IconFormat::Ico);
    assert_eq!(icon_format("ü.png"), IconFormat::Png);
}

#[test]
fn icon_format_of_every_short_bare_name() {
    let alphabet = ['.', 'i', 'c', 'o', 'p', 'n', 'g', ' ', 'x'];
    let mut names = vec![String::new()];
    let mut from = 0;
    for _ in 0..5 {
        let until = names.len();
        for k in from..until {
            for c in alphabet {
                let mut name = names[k].clone();
                name.push(c);
                names.push(name);
            }
        }
        from = until;
    }
    assert_eq!(names.len(), 1 + 9 + 81 + 729 + 6561 + 59049);
    for name in names {
        assert_eq!(icon_format(&name), format_by_last_dot(&name), "{:?}", name);
    }
}
