use core_api::helper::{file_name_filter, merge_command};

#[test]
fn name_filter() {
    let name = "//:hi,ä½ å¥½*\\.?";
    let name = file_name_filter(name);
    assert_eq!(name, String::from("hi,ä½ å¥½."));
    let name = file_name_filter("è®¨åŒå·¥ä½œæ—¥ğŸ˜­//æ˜Ÿç©¹é“é“MMDï¼šé’é›€&æˆ‘çš„æ‚²ä¼¤æ˜¯æ°´åšçš„");
    println!("{name}");
}

#[test]
fn merge_arguments() {
    let args = merge_command("/tmp/dl/cache_0/clip.mp4", "/tmp/dl/cache_0/clip.aac", "/tmp/dl/clip.mp4");
    assert_eq!(
        args,
        vec![
            "-y",
            "-i",
            "/tmp/dl/cache_0/clip.mp4",
            "-i",
            "/tmp/dl/cache_0/clip.aac",
            "-c:v",
            "copy",
            "-c:a",
            "copy",
            "/tmp/dl/clip.mp4",
        ]
    );
}
