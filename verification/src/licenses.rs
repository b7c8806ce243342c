//! The licenses listed under Settings → About & Licenses.
use vstd::prelude::*;

verus! {

/// Index of the combined "About & Licenses" entry in the left settings menu.
pub fn menu_index() -> (r: usize)
    ensures
        r == 4,
{
    4
}

/// The number of listed licenses.
pub open spec fn license_count() -> nat {
    5
}

/// The listed licenses: each display name with the files its text is read
/// from, nearest first (`f`, `../f`, `../../f`).
pub open spec fn licenses_listed(r: Seq<(&'static str, &'static [&'static str])>) -> bool {
    &&& r.len() == license_count()
    &&& r[0].0@ == "QuantumLauncher (GPLv3)"@
    &&& r[0].1@.len() == 3
    &&& r[0].1@[0]@ == "LICENSE"@ && r[0].1@[1]@ == "../LICENSE"@ && r[0].1@[2]@ == "../../LICENSE"@
    &&& r[1].0@ == "Forge Installer"@
    &&& r[1].1@.len() == 3
    &&& r[1].1@[0]@ == "assets/licenses/APACHE_2.txt"@ && r[1].1@[1]@ == "../assets/licenses/APACHE_2.txt"@ && r[1].1@[2]@ == "../../assets/licenses/APACHE_2.txt"@
    &&& r[2].0@ == "Fonts (Inter/Jetbrains Mono)"@
    &&& r[2].1@.len() == 3
    &&& r[2].1@[0]@ == "assets/licenses/OFL.txt"@ && r[2].1@[1]@ == "../assets/licenses/OFL.txt"@ && r[2].1@[2]@ == "../../assets/licenses/OFL.txt"@
    &&& r[3].0@ == "Password Asterisks Font"@
    &&& r[3].1@.len() == 3
    &&& r[3].1@[0]@ == "assets/licenses/CC_BY_SA_3_0.txt"@ && r[3].1@[1]@ == "../assets/licenses/CC_BY_SA_3_0.txt"@ && r[3].1@[2]@ == "../../assets/licenses/CC_BY_SA_3_0.txt"@
    &&& r[4].0@ == "LWJGL"@
    &&& r[4].1@.len() == 3
    &&& r[4].1@[0]@ == "assets/licenses/LWJGL.txt"@ && r[4].1@[1]@ == "../assets/licenses/LWJGL.txt"@ && r[4].1@[2]@ == "../../assets/licenses/LWJGL.txt"@
}

/// Returns list of license display names and file path candidates.
pub fn entries() -> (r: &'static [(&'static str, &'static [&'static str])])
    ensures
        licenses_listed(r@),
{
    &[
        ("QuantumLauncher (GPLv3)", &["LICENSE", "../LICENSE", "../../LICENSE"]),
        (
            "Forge Installer",
            &[
                "assets/licenses/APACHE_2.txt",
                "../assets/licenses/APACHE_2.txt",
                "../../assets/licenses/APACHE_2.txt",
            ],
        ),
        (
            "Fonts (Inter/Jetbrains Mono)",
            &[
                "assets/licenses/OFL.txt",
                "../assets/licenses/OFL.txt",
                "../../assets/licenses/OFL.txt",
            ],
        ),
        (
            "Password Asterisks Font",
            &[
                "assets/licenses/CC_BY_SA_3_0.txt",
                "../assets/licenses/CC_BY_SA_3_0.txt",
                "../../assets/licenses/CC_BY_SA_3_0.txt",
            ],
        ),
        (
            "LWJGL",
            &[
                "assets/licenses/LWJGL.txt",
                "../assets/licenses/LWJGL.txt",
                "../../assets/licenses/LWJGL.txt",
            ],
        ),
    ]
}

/// The built-in notice of the license at `index` (in the order of
/// `entries()`).
pub open spec fn license_notice(index: int) -> Seq<char> {
    if index == 0 {
        "QuantumLauncher is free software: you can redistribute it and/or modify it under the terms of the GNU General Public License as published by the Free Software Foundation, either version 3 of the License, or (at your option) any later version. See the LICENSE file distributed with the program, or https://www.gnu.org/licenses/gpl-3.0.html"@
    } else     if index == 1 {
        "The Forge installer is licensed under the Apache License, Version 2.0. See assets/licenses/APACHE_2.txt, or https://www.apache.org/licenses/LICENSE-2.0"@
    } else     if index == 2 {
        "The Inter and JetBrains Mono fonts are licensed under the SIL Open Font License, Version 1.1. See assets/licenses/OFL.txt, or https://openfontlicense.org"@
    } else     if index == 3 {
        "The password asterisks font is licensed under the Creative Commons Attribution-ShareAlike 3.0 license. See assets/licenses/CC_BY_SA_3_0.txt, or https://creativecommons.org/licenses/by-sa/3.0/"@
    } else {
        "LWJGL is licensed under the BSD 3-Clause license. See assets/licenses/LWJGL.txt, or https://www.lwjgl.org/license"@
    }
}

/// Built-in license notices, shown when a license file cannot be read from
/// disk. The index follows `entries()`; other indices have none.
pub fn fallback_content(index: usize) -> (r: Option<&'static str>)
    ensures
        r is Some <==> index < license_count(),
        r matches Some(t) ==> t@ == license_notice(index as int),
{
    if index == 0 {
        Some(
            "QuantumLauncher is free software: you can redistribute it and/or modify it under the terms of the GNU General Public License as published by the Free Software Foundation, either version 3 of the License, or (at your option) any later version. See the LICENSE file distributed with the program, or https://www.gnu.org/licenses/gpl-3.0.html",
        )
    } else if index == 1 {
        Some(
            "The Forge installer is licensed under the Apache License, Version 2.0. See assets/licenses/APACHE_2.txt, or https://www.apache.org/licenses/LICENSE-2.0",
        )
    } else if index == 2 {
        Some(
            "The Inter and JetBrains Mono fonts are licensed under the SIL Open Font License, Version 1.1. See assets/licenses/OFL.txt, or https://openfontlicense.org",
        )
    } else if index == 3 {
        Some(
            "The password asterisks font is licensed under the Creative Commons Attribution-ShareAlike 3.0 license. See assets/licenses/CC_BY_SA_3_0.txt, or https://creativecommons.org/licenses/by-sa/3.0/",
        )
    } else if index == 4 {
        Some(
            "LWJGL is licensed under the BSD 3-Clause license. See assets/licenses/LWJGL.txt, or https://www.lwjgl.org/license",
        )
    } else {
        None
    }
}

} // verus!
