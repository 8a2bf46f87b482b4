//! The device presets offered for capture, each with its viewport.

use vstd::prelude::*;

verus! {

/// One listed preset has exactly this name and resolution.
pub open spec fn preset_is(p: (&str, &str), name: Seq<char>, resolution: Seq<char>) -> bool {
    p.0@ == name && p.1@ == resolution
}

/// The device presets, in the order they are listed.
pub fn device_presets() -> (r: Vec<(&'static str, &'static str)>)
    ensures
        r@.len() == 16,
        preset_is(r@[0], "Desktop HD"@, "1920x1080"@),
        preset_is(r@[1], "Desktop"@, "1440x900"@),
        preset_is(r@[2], "Laptop"@, "1366x768"@),
        preset_is(r@[3], "Tablet Landscape"@, "1024x768"@),
        preset_is(r@[4], "Tablet Portrait"@, "768x1024"@),
        preset_is(r@[5], "iPhone 14 Pro Max"@, "430x932"@),
        preset_is(r@[6], "iPhone 14 Pro"@, "393x852"@),
        preset_is(r@[7], "iPhone 14"@, "390x844"@),
        preset_is(r@[8], "iPhone SE"@, "375x667"@),
        preset_is(r@[9], "iPad Pro 12.9"@, "1024x1366"@),
        preset_is(r@[10], "iPad Pro 11"@, "834x1194"@),
        preset_is(r@[11], "iPad"@, "820x1180"@),
        preset_is(r@[12], "iPad Mini"@, "744x1133"@),
        preset_is(r@[13], "Android Large"@, "412x915"@),
        preset_is(r@[14], "Android Medium"@, "393x873"@),
        preset_is(r@[15], "Android Small"@, "360x800"@),
{
    let mut v: Vec<(&'static str, &'static str)> = Vec::new();
    v.push(("Desktop HD", "1920x1080"));
    v.push(("Desktop", "1440x900"));
    v.push(("Laptop", "1366x768"));
    v.push(("Tablet Landscape", "1024x768"));
    v.push(("Tablet Portrait", "768x1024"));
    v.push(("iPhone 14 Pro Max", "430x932"));
    v.push(("iPhone 14 Pro", "393x852"));
    v.push(("iPhone 14", "390x844"));
    v.push(("iPhone SE", "375x667"));
    v.push(("iPad Pro 12.9", "1024x1366"));
    v.push(("iPad Pro 11", "834x1194"));
    v.push(("iPad", "820x1180"));
    v.push(("iPad Mini", "744x1133"));
    v.push(("Android Large", "412x915"));
    v.push(("Android Medium", "393x873"));
    v.push(("Android Small", "360x800"));
    v
}

} // verus!
