//! Node capability and command advertisement.
use vstd::prelude::*;

verus! {

/// The capabilities a node advertises.
pub open spec fn advertised_caps(camera: bool, location: bool, screen: bool, talk: bool) -> Seq<
    Seq<char>,
> {
    seq!["canvas"@, "screen"@, "system"@] + (if camera {
        seq!["camera"@]
    } else {
        Seq::empty()
    }) + (if location {
        seq!["location"@]
    } else {
        Seq::empty()
    }) + (if talk {
        seq!["talk"@]
    } else {
        Seq::empty()
    })
}

/// The commands a node always supports.
pub open spec fn base_commands() -> Seq<Seq<char>> {
    seq![
        "canvas.present"@,
        "canvas.hide"@,
        "canvas.navigate"@,
        "canvas.eval"@,
        "canvas.snapshot"@,
        "canvas.a2ui.push"@,
        "canvas.a2ui.pushJSONL"@,
        "canvas.a2ui.reset"@,
        "screen.snapshot"@,
        "system.notify"@,
        "system.which"@,
        "system.run"@,
        "system.run.prepare"@,
        "system.execApprovals.get"@,
        "system.execApprovals.set"@,
    ]
}

/// The commands a node advertises.
pub open spec fn advertised_commands(camera: bool, location: bool, screen: bool, talk: bool) -> Seq<
    Seq<char>,
> {
    base_commands() + (if screen {
        seq!["screen.record"@]
    } else {
        Seq::empty()
    }) + (if camera {
        seq!["camera.list"@, "camera.snap"@, "camera.clip"@]
    } else {
        Seq::empty()
    }) + (if location {
        seq!["location.get"@]
    } else {
        Seq::empty()
    }) + (if talk {
        seq!["talk.ptt.start"@, "talk.ptt.stop"@, "talk.ptt.cancel"@, "talk.ptt.once"@]
    } else {
        Seq::empty()
    })
}

/// The permissions a node advertises, as a map in ascending key order: camera capture and
/// screen recording, each granted when the matching capture is enabled.
pub open spec fn advertised_permissions(camera: bool, screen: bool) -> Seq<(Seq<char>, bool)> {
    seq![("camera.capture"@, camera), ("screen.record"@, screen)]
}

/// The views of a list of strings.
pub open spec fn strings_view(v: Seq<String>) -> Seq<Seq<char>> {
    Seq::new(v.len(), |i: int| v[i]@)
}

/// The views of a list of named flags.
pub open spec fn flags_view(v: Seq<(String, bool)>) -> Seq<(Seq<char>, bool)> {
    Seq::new(v.len(), |i: int| (v[i].0@, v[i].1))
}

fn push_all(out: &mut Vec<String>, items: &[&str])
    ensures
        strings_view(final(out)@) == strings_view(old(out)@) + Seq::new(
            items@.len(),
            |i: int| items@[i]@,
        ),
{
    let ghost start = strings_view(out@);
    let mut i: usize = 0;
    while i < items.len()
        invariant
            i <= items.len(),
            strings_view(out@) == start + Seq::new(i as nat, |k: int| items@[k]@),
        decreases items.len() - i,
    {
        let item = String::from_str(items[i]);
        let ghost before = strings_view(out@);
        out.push(item);
        proof {
            assert(strings_view(out@) =~= before.push(items@[i as int]@));
        }
        i = i + 1;
        proof {
            assert(strings_view(out@) =~= start + Seq::new(i as nat, |k: int| items@[k]@));
        }
    }
}

/// Capabilities, commands and permissions a Linux node advertises for the enabled
/// camera, location, screen and talk features.
pub fn linux_node_advertisement(
    camera_enabled: bool,
    location_enabled: bool,
    screen_enabled: bool,
    talk_enabled: bool,
) -> (r: (Vec<String>, Vec<String>, Vec<(String, bool)>))
    ensures
        strings_view(r.0@) == advertised_caps(
            camera_enabled,
            location_enabled,
            screen_enabled,
            talk_enabled,
        ),
        strings_view(r.1@) == advertised_commands(
            camera_enabled,
            location_enabled,
            screen_enabled,
            talk_enabled,
        ),
        flags_view(r.2@) == advertised_permissions(camera_enabled, screen_enabled),
{
    let mut caps: Vec<String> = Vec::new();
    push_all(&mut caps, &["canvas", "screen", "system"]);
    let mut commands: Vec<String> = Vec::new();
    push_all(
        &mut commands,
        &[
            "canvas.present",
            "canvas.hide",
            "canvas.navigate",
            "canvas.eval",
            "canvas.snapshot",
            "canvas.a2ui.push",
            "canvas.a2ui.pushJSONL",
            "canvas.a2ui.reset",
            "screen.snapshot",
            "system.notify",
            "system.which",
            "system.run",
            "system.run.prepare",
            "system.execApprovals.get",
            "system.execApprovals.set",
        ],
    );
    let mut permissions: Vec<(String, bool)> = Vec::new();
    permissions.push((String::from_str("camera.capture"), camera_enabled));
    permissions.push((String::from_str("screen.record"), screen_enabled));
    if screen_enabled {
        push_all(&mut commands, &["screen.record"]);
    }
    if camera_enabled {
        push_all(&mut caps, &["camera"]);
        push_all(&mut commands, &["camera.list", "camera.snap", "camera.clip"]);
    }
    if location_enabled {
        push_all(&mut caps, &["location"]);
        push_all(&mut commands, &["location.get"]);
    }
    if talk_enabled {
        push_all(&mut caps, &["talk"]);
        push_all(
            &mut commands,
            &["talk.ptt.start", "talk.ptt.stop", "talk.ptt.cancel", "talk.ptt.once"],
        );
    }
    proof {
        assert(strings_view(caps@) =~= advertised_caps(
            camera_enabled,
            location_enabled,
            screen_enabled,
            talk_enabled,
        ));
        assert(strings_view(commands@) =~= advertised_commands(
            camera_enabled,
            location_enabled,
            screen_enabled,
            talk_enabled,
        ));
        assert(flags_view(permissions@) =~= advertised_permissions(camera_enabled, screen_enabled));
    }
    (caps, commands, permissions)
}

} // verus!
