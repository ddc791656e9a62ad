//! The desktop client's forms: how what the user typed becomes a command,
//! and how the lists are searched and labelled.
use vstd::prelude::*;
use crate::commands::Command;
use crate::docker_ops::{running_count, running_count_spec};
use crate::docker::{ContainerSummary, DockerCreateContainerConfig, DockerScaffoldConfig, ImageSummary, NetworkSummary, VolumeSummary};
use crate::text::{
    chars_eq_str, chars_of, contains_exec, dec, push_dec, contains_sub, lines, lines_exec, lit, parse_dec_exec, parse_unsigned,
    split_char, split_char_exec, split_ws, split_ws_exec, string_from_chars, sview, trim, trim_chars,
    vview,
};

verus! {

/// The trimmed pieces, leaving out the empty ones.
pub open spec fn kept_trimmed(ps: Seq<Seq<char>>) -> Seq<Seq<char>>
    decreases ps.len(),
{
    if ps.len() == 0 {
        Seq::empty()
    } else if trim(ps.last()).len() > 0 {
        kept_trimmed(ps.drop_last()).push(trim(ps.last()))
    } else {
        kept_trimmed(ps.drop_last())
    }
}

fn kept_trimmed_exec(ps: &Vec<Vec<char>>) -> (r: Vec<String>)
    ensures
        sview(r@) == kept_trimmed(vview(ps@)),
{
    let ghost v = vview(ps@);
    let mut r: Vec<String> = Vec::new();
    let mut i: usize = 0;
    while i < ps.len()
        invariant
            i <= ps.len(),
            v == vview(ps@),
            sview(r@) == kept_trimmed(v.take(i as int)),
        decreases ps.len() - i,
    {
        assert(v.take(i + 1).drop_last() =~= v.take(i as int));
        assert(v.take(i + 1).last() == ps@[i as int]@);
        let t = trim_chars(ps[i].as_slice());
        if t.len() > 0 {
            let ghost r0 = sview(r@);
            r.push(string_from_chars(&t));
            assert(sview(r@) =~= r0.push(t@));
        }
        i = i + 1;
    }
    assert(v.take(ps.len() as int) =~= v);
    r
}

/// The port numbers in a comma-separated list, leaving out the pieces that
/// are not a port number.
pub open spec fn ports_of(ps: Seq<Seq<char>>) -> Seq<u16>
    decreases ps.len(),
{
    if ps.len() == 0 {
        Seq::empty()
    } else {
        match parse_unsigned(trim(ps.last()), 10, 65535) {
            Some(v) => ports_of(ps.drop_last()).push(v as u16),
            None => ports_of(ps.drop_last()),
        }
    }
}

pub fn parse_ports(text: &String) -> (r: Vec<u16>)
    ensures
        r@ == ports_of(split_char(text@, ',')),
{
    let ps = split_char_exec(&chars_of(text.as_str()), ',');
    let ghost v = vview(ps@);
    let mut r: Vec<u16> = Vec::new();
    let mut i: usize = 0;
    while i < ps.len()
        invariant
            i <= ps.len(),
            v == vview(ps@),
            v == split_char(text@, ','),
            r@ == ports_of(v.take(i as int)),
        decreases ps.len() - i,
    {
        assert(v.take(i + 1).drop_last() =~= v.take(i as int));
        assert(v.take(i + 1).last() == ps@[i as int]@);
        let t = trim_chars(ps[i].as_slice());
        match parse_dec_exec(&t, 65535) {
            Some(p) => {
                r.push(p as u16);
            },
            None => {},
        }
        i = i + 1;
    }
    assert(v.take(ps.len() as int) =~= v);
    r
}

/// The create-container form: ports, variables and volumes one per line
/// (trimmed, blank lines left out); the command split at white space, or
/// none when blank.
pub fn create_container_command(
    name: String,
    image: String,
    ports_text: &String,
    env_text: &String,
    volumes_text: &String,
    cmd_text: &String,
) -> (r: Command)
    ensures
        r matches Command::DockerCreateContainer { config } && config.name == name && config.image == image
            && sview(config.ports@) == kept_trimmed(lines(ports_text@))
            && sview(config.env@) == kept_trimmed(lines(env_text@))
            && sview(config.volumes@) == kept_trimmed(lines(volumes_text@))
            && (match config.cmd {
            Some(c) => trim(cmd_text@).len() > 0 && sview(c@) == split_ws(trim(cmd_text@)),
            None => trim(cmd_text@).len() == 0,
        }),
{
    let ports = kept_trimmed_exec(&lines_exec(&chars_of(ports_text.as_str())));
    let env = kept_trimmed_exec(&lines_exec(&chars_of(env_text.as_str())));
    let volumes = kept_trimmed_exec(&lines_exec(&chars_of(volumes_text.as_str())));
    let c = trim_chars(&chars_of(cmd_text.as_str()));
    let cmd = if c.len() == 0 {
        None
    } else {
        let words = split_ws_exec(&c);
        Some(crate::text::strings_from_pieces(&words))
    };
    Command::DockerCreateContainer {
        config: DockerCreateContainerConfig { name, image, ports, env, volumes, cmd },
    }
}

/// The scaffold form: ports from a comma-separated list, the additional
/// images trimmed from one (blank ones left out), the command only when not
/// empty.
pub fn scaffold_command(
    context_path: String,
    base_image: String,
    ports_text: &String,
    workdir: String,
    cmd_text: String,
    additional_text: &String,
) -> (r: Command)
    ensures
        r matches Command::DockerScaffold { config } && config.context_path == context_path
            && config.base_image == base_image && config.ports@ == ports_of(split_char(ports_text@, ','))
            && config.workdir == Some(workdir)
            && (match config.cmd {
            Some(c) => c == cmd_text && cmd_text@.len() > 0,
            None => cmd_text@.len() == 0,
        }) && sview(config.additional_images@) == kept_trimmed(split_char(additional_text@, ',')),
{
    let ports = parse_ports(ports_text);
    let additional_images = kept_trimmed_exec(&split_char_exec(&chars_of(additional_text.as_str()), ','));
    let cmd = if chars_of(cmd_text.as_str()).len() == 0 {
        None
    } else {
        Some(cmd_text)
    };
    Command::DockerScaffold {
        config: DockerScaffoldConfig {
            context_path,
            base_image,
            ports,
            workdir: Some(workdir),
            cmd,
            additional_images,
        },
    }
}

/// Pulling an image: the trimmed name, when it is not empty.
pub fn pull_command(text: &String) -> (r: Option<Command>)
    ensures
        trim(text@).len() == 0 ==> r is None,
        trim(text@).len() > 0 ==> (r matches Some(Command::DockerPullImage { image }) && image@ == trim(text@)),
{
    let t = trim_chars(&chars_of(text.as_str()));
    if t.len() == 0 {
        None
    } else {
        Some(Command::DockerPullImage { image: string_from_chars(&t) })
    }
}

/// Building from a context path: the trimmed tag, or none when blank.
pub fn build_command(context_path: String, tag_text: &String) -> (r: Command)
    ensures
        r matches Command::DockerBuildImage { context_path: p, tag } && p == context_path && (match tag {
            Some(t) => t@ == trim(tag_text@) && t@.len() > 0,
            None => trim(tag_text@).len() == 0,
        }),
{
    let t = trim_chars(&chars_of(tag_text.as_str()));
    let tag = if t.len() == 0 {
        None
    } else {
        Some(string_from_chars(&t))
    };
    Command::DockerBuildImage { context_path, tag }
}

/// Analyzing a folder: the trimmed path, when it is not empty.
pub fn analyze_command(path_text: &String) -> (r: Option<Command>)
    ensures
        trim(path_text@).len() == 0 ==> r is None,
        trim(path_text@).len() > 0 ==> (r matches Some(Command::DockerAnalyzeFolder { path }) && path@ == trim(path_text@)),
{
    let t = trim_chars(&chars_of(path_text.as_str()));
    if t.len() == 0 {
        None
    } else {
        Some(Command::DockerAnalyzeFolder { path: string_from_chars(&t) })
    }
}

/// A manual build needs both paths; without a tag the image is tagged
/// `manual-build:latest`.
pub fn manual_build_command(dockerfile_path: String, project_path: String, tag: String) -> (r: Option<Command>)
    ensures
        (dockerfile_path@.len() == 0 || project_path@.len() == 0) ==> r is None,
        (dockerfile_path@.len() > 0 && project_path@.len() > 0) ==> (r matches Some(
            Command::DockerBuildManual { dockerfile_path: d, project_path: p, tag: t },
        ) && d == dockerfile_path && p == project_path && t@ == (if tag@.len() == 0 {
            "manual-build:latest"@
        } else {
            tag@
        })),
{
    if chars_of(dockerfile_path.as_str()).len() == 0 || chars_of(project_path.as_str()).len() == 0 {
        return None;
    }
    let t = if chars_of(tag.as_str()).len() == 0 {
        lit("manual-build:latest")
    } else {
        tag
    };
    Some(Command::DockerBuildManual { dockerfile_path, project_path, tag: t })
}

/// A manual compose deploy needs both the compose file and the project
/// folder.
pub fn manual_compose_command(compose_file_path: String, project_path: String) -> (r: Option<Command>)
    ensures
        (compose_file_path@.len() == 0 || project_path@.len() == 0) ==> r is None,
        (compose_file_path@.len() > 0 && project_path@.len() > 0) ==> r == Some(
            Command::DockerComposeManual { compose_file_path, project_path },
        ),
{
    if chars_of(compose_file_path.as_str()).len() == 0 || chars_of(project_path.as_str()).len() == 0 {
        return None;
    }
    Some(Command::DockerComposeManual { compose_file_path, project_path })
}

/// Building a folder whose Dockerfile was just saved: tagged with the last
/// part of its path and `:latest`.
pub fn confirmed_build_command(path: String) -> (r: Command)
    ensures
        r matches Command::DockerBuildImage { context_path, tag } && context_path == path && (
        tag matches Some(t) && t@ == split_char(path@, '/').last() + ":latest"@),
{
    let parts = split_char_exec(&chars_of(path.as_str()), '/');
    assert(vview(parts@).len() == parts@.len());
    let mut t = parts[parts.len() - 1].clone();
    assert(vview(parts@).last() == t@);
    let tail = chars_of(":latest");
    t.extend_from_slice(&tail);
    Command::DockerBuildImage { context_path: path, tag: Some(string_from_chars(&t)) }
}

/// The repository and tag shown for an image: from its first tag, split at
/// the colons; `<none>` without tags, `latest` without a second piece.
pub open spec fn image_label_spec(tags: Seq<Seq<char>>) -> (Seq<char>, Seq<char>) {
    let first = if tags.len() > 0 {
        tags[0]
    } else {
        "<none>"@
    };
    let parts = split_char(first, ':');
    (parts[0], if parts.len() > 1 {
        parts[1]
    } else {
        "latest"@
    })
}

pub fn image_label(img: &ImageSummary) -> (r: (String, String))
    ensures
        (r.0@, r.1@) == image_label_spec(sview(img.repo_tags@)),
{
    let first = if img.repo_tags.len() > 0 {
        img.repo_tags[0].clone()
    } else {
        lit("<none>")
    };
    let parts = split_char_exec(&chars_of(first.as_str()), ':');
    assert(vview(parts@).len() == parts@.len());
    assert(vview(parts@)[0] == parts@[0]@);
    let repo = string_from_chars(parts[0].as_slice());
    let tag = if parts.len() > 1 {
        assert(vview(parts@)[1] == parts@[1]@);
        string_from_chars(parts[1].as_slice())
    } else {
        lit("latest")
    };
    (repo, tag)
}

// ---------------------------------------------------------------------------
// Searching the lists
// ---------------------------------------------------------------------------

/// What `str::to_lowercase` makes of a text.
pub uninterp spec fn lowercase(s: Seq<char>) -> Seq<char>;

/// `str::to_lowercase`.
/// Trusted: the result is the lowercase form of the text, a function of the
/// text alone (named `lowercase`; what it is on given text is not stated),
/// and it is empty exactly when the text is (every character maps to one
/// or more characters).
#[verifier::external_body]
fn to_lowercase(s: &str) -> (r: String)
    ensures
        r@ == lowercase(s@),
        s@.len() == 0 <==> r@.len() == 0,
{
    s.to_lowercase()
}

/// An item matches a search when the search is empty once lowercased, or
/// when the lowercase form of one of its fields contains the lowercase
/// search text.
pub open spec fn item_matches(fields: Seq<Seq<char>>, search: Seq<char>) -> bool {
    lowercase(search).len() == 0 || exists|f: int| 0 <= f < fields.len() && contains_sub(lowercase(fields[f]), lowercase(search))
}

/// The positions `0, 1, ..., n - 1`, in order.
pub open spec fn every_position(r: Seq<usize>, n: nat) -> bool {
    r.len() == n && forall|k: int| 0 <= k < r.len() ==> r[k] == k
}

/// The positions, in order, of the items that match the search.
pub open spec fn found(items: Seq<Seq<Seq<char>>>, search: Seq<char>, r: Seq<usize>) -> bool {
    &&& forall|k: int| 0 <= k < r.len() ==> r[k] < items.len()
    &&& forall|k: int, l: int| 0 <= k < l < r.len() ==> r[k] < r[l]
    &&& forall|i: int| 0 <= i < items.len() ==> (r.contains(i as usize) <==> item_matches(items[i], search))
}

fn lower_chars(s: &String) -> (r: Vec<char>)
    ensures
        r@ == lowercase(s@),
        s@.len() == 0 <==> r@.len() == 0,
{
    chars_of(to_lowercase(s.as_str()).as_str())
}

fn any_field_matches(fields: &Vec<String>, s: &Vec<char>, search: Ghost<Seq<char>>) -> (r: bool)
    requires
        s@ == lowercase(search@),
    ensures
        r == item_matches(sview(fields@), search@),
{
    if s.len() == 0 {
        return true;
    }
    let mut i: usize = 0;
    while i < fields.len()
        invariant
            i <= fields.len(),
            s@ == lowercase(search@),
            s@.len() > 0,
            forall|f: int| 0 <= f < i ==> !contains_sub(lowercase(fields@[f]@), lowercase(search@)),
        decreases fields.len() - i,
    {
        if contains_exec(&lower_chars(&fields[i]), s) {
            assert(sview(fields@)[i as int] == fields@[i as int]@);
            return true;
        }
        i = i + 1;
    }
    assert forall|f: int| 0 <= f < sview(fields@).len() implies !contains_sub(lowercase(sview(fields@)[f]), lowercase(search@)) by {
        assert(sview(fields@)[f] == fields@[f]@);
    }
    false
}

pub open spec fn fields_view(items: Seq<Vec<String>>) -> Seq<Seq<Seq<char>>> {
    items.map_values(|v: Vec<String>| sview(v@))
}

/// The positions of the items, each given by its searchable fields, that
/// match the search.
pub fn search_items(items: &Vec<Vec<String>>, search: &String) -> (r: Vec<usize>)
    ensures
        found(fields_view(items@), search@, r@),
        search@.len() == 0 ==> every_position(r@, items@.len()),
{
    let s = lower_chars(search);
    let mut r: Vec<usize> = Vec::new();
    let mut i: usize = 0;
    let ghost fv = fields_view(items@);
    while i < items.len()
        invariant
            i <= items.len(),
            fv == fields_view(items@),
            s@ == lowercase(search@),
            forall|k: int| 0 <= k < r@.len() ==> r@[k] < i,
            forall|k: int, l: int| 0 <= k < l < r@.len() ==> r@[k] < r@[l],
            forall|j: int| 0 <= j < i ==> (r@.contains(j as usize) <==> item_matches(fv[j], search@)),
            search@.len() == 0 <==> s@.len() == 0,
            search@.len() == 0 ==> every_position(r@, i as nat),
        decreases items.len() - i,
    {
        let hit = any_field_matches(&items[i], &s, Ghost(search@));
        assert(fv[i as int] == sview(items@[i as int]@));
        let ghost r0 = r@;
        if hit {
            r.push(i);
        }
        proof {
            assert forall|j: int| 0 <= j < i + 1 implies (r@.contains(j as usize) <==> item_matches(fv[j], search@)) by {
                if j < i {
                    if r@.contains(j as usize) {
                        let k = choose|k: int| 0 <= k < r@.len() && r@[k] == j as usize;
                        if k < r0.len() {
                            assert(r0[k] == j as usize);
                        }
                    }
                    if r0.contains(j as usize) {
                        let k = choose|k: int| 0 <= k < r0.len() && r0[k] == j as usize;
                        assert(r@[k] == j as usize);
                    }
                } else {
                    if hit {
                        assert(r@[r@.len() - 1] == i);
                    } else {
                        if r@.contains(j as usize) {
                            let k = choose|k: int| 0 <= k < r@.len() && r@[k] == j as usize;
                        }
                    }
                }
            }
        }
        i = i + 1;
    }
    r
}

/// The containers found by name or image.
pub fn search_containers(cs: &Vec<ContainerSummary>, search: &String) -> (r: Vec<usize>)
    ensures
        found(cs@.map_values(|c: ContainerSummary| seq![c.name@, c.image@]), search@, r@),
        search@.len() == 0 ==> every_position(r@, cs@.len()),
{
    let mut items: Vec<Vec<String>> = Vec::new();
    let mut i: usize = 0;
    while i < cs.len()
        invariant
            i <= cs.len(),
            fields_view(items@) =~= cs@.take(i as int).map_values(|c: ContainerSummary| seq![c.name@, c.image@]),
        decreases cs.len() - i,
    {
        let f = vec![cs[i].name.clone(), cs[i].image.clone()];
        assert(sview(f@) =~= seq![cs@[i as int].name@, cs@[i as int].image@]);
        let ghost i0 = items@;
        items.push(f);
        assert(fields_view(items@) =~= fields_view(i0).push(sview(f@)));
        assert(cs@.take(i + 1) =~= cs@.take(i as int).push(cs@[i as int]));
        i = i + 1;
    }
    assert(cs@.take(cs.len() as int) =~= cs@);
    search_items(&items, search)
}

/// The images found by any of their tags.
pub fn search_images(images: &Vec<ImageSummary>, search: &String) -> (r: Vec<usize>)
    ensures
        found(images@.map_values(|m: ImageSummary| sview(m.repo_tags@)), search@, r@),
        search@.len() == 0 ==> every_position(r@, images@.len()),
{
    let mut items: Vec<Vec<String>> = Vec::new();
    let mut i: usize = 0;
    while i < images.len()
        invariant
            i <= images.len(),
            fields_view(items@) =~= images@.take(i as int).map_values(|m: ImageSummary| sview(m.repo_tags@)),
        decreases images.len() - i,
    {
        let f = crate::text::strings_from_pieces(&strings_to_chars(&images[i].repo_tags));
        let ghost i0 = items@;
        items.push(f);
        assert(fields_view(items@) =~= fields_view(i0).push(sview(f@)));
        assert(images@.take(i + 1) =~= images@.take(i as int).push(images@[i as int]));
        i = i + 1;
    }
    assert(images@.take(images.len() as int) =~= images@);
    search_items(&items, search)
}

fn strings_to_chars(v: &Vec<String>) -> (r: Vec<Vec<char>>)
    ensures
        vview(r@) == sview(v@),
{
    let mut r: Vec<Vec<char>> = Vec::new();
    let mut i: usize = 0;
    while i < v.len()
        invariant
            i <= v.len(),
            vview(r@) =~= sview(v@).take(i as int),
        decreases v.len() - i,
    {
        let ghost r0 = r@;
        r.push(chars_of(v[i].as_str()));
        assert(vview(r@) =~= vview(r0).push(v@[i as int]@));
        i = i + 1;
    }
    r
}

/// The networks found by name.
pub fn search_networks(ns: &Vec<NetworkSummary>, search: &String) -> (r: Vec<usize>)
    ensures
        found(ns@.map_values(|n: NetworkSummary| seq![n.name@]), search@, r@),
        search@.len() == 0 ==> every_position(r@, ns@.len()),
{
    let mut items: Vec<Vec<String>> = Vec::new();
    let mut i: usize = 0;
    while i < ns.len()
        invariant
            i <= ns.len(),
            fields_view(items@) =~= ns@.take(i as int).map_values(|n: NetworkSummary| seq![n.name@]),
        decreases ns.len() - i,
    {
        let f = vec![ns[i].name.clone()];
        assert(sview(f@) =~= seq![ns@[i as int].name@]);
        let ghost i0 = items@;
        items.push(f);
        assert(fields_view(items@) =~= fields_view(i0).push(sview(f@)));
        assert(ns@.take(i + 1) =~= ns@.take(i as int).push(ns@[i as int]));
        i = i + 1;
    }
    assert(ns@.take(ns.len() as int) =~= ns@);
    search_items(&items, search)
}

/// The volumes found by name.
pub fn search_volumes(vs: &Vec<VolumeSummary>, search: &String) -> (r: Vec<usize>)
    ensures
        found(vs@.map_values(|v: VolumeSummary| seq![v.name@]), search@, r@),
        search@.len() == 0 ==> every_position(r@, vs@.len()),
{
    let mut items: Vec<Vec<String>> = Vec::new();
    let mut i: usize = 0;
    while i < vs.len()
        invariant
            i <= vs.len(),
            fields_view(items@) =~= vs@.take(i as int).map_values(|v: VolumeSummary| seq![v.name@]),
        decreases vs.len() - i,
    {
        let f = vec![vs[i].name.clone()];
        assert(sview(f@) =~= seq![vs@[i as int].name@]);
        let ghost i0 = items@;
        items.push(f);
        assert(fields_view(items@) =~= fields_view(i0).push(sview(f@)));
        assert(vs@.take(i + 1) =~= vs@.take(i as int).push(vs@[i as int]));
        i = i + 1;
    }
    assert(vs@.take(vs.len() as int) =~= vs@);
    search_items(&items, search)
}

/// The class of a container's status: running, stopped (exited or
/// stopped), or anything else.
pub fn container_status_class(state: &String) -> (r: &'static str)
    ensures
        r@ == (if state@ == "running"@ {
            "status-running"@
        } else if state@ == "exited"@ || state@ == "stopped"@ {
            "status-stopped"@
        } else {
            "status-warning"@
        }),
{
    let c = chars_of(state.as_str());
    if chars_eq_str(&c, "running") {
        "status-running"
    } else if chars_eq_str(&c, "exited") || chars_eq_str(&c, "stopped") {
        "status-stopped"
    } else {
        "status-warning"
    }
}

/// The network traffic of the running containers, in whole mebibytes
/// received and sent.
pub fn net_label(rx: u64, tx: u64) -> (r: String)
    ensures
        r@ == dec((rx / 1048576) as nat) + " MB / "@ + dec((tx / 1048576) as nat) + " MB"@,
{
    let mut out: Vec<char> = Vec::new();
    push_dec(&mut out, rx / 1048576);
    let mid = chars_of(" MB / ");
    out.extend_from_slice(&mid);
    push_dec(&mut out, tx / 1048576);
    let tail = chars_of(" MB");
    out.extend_from_slice(&tail);
    string_from_chars(&out)
}

/// The dashboard's line on containers: how many run out of how many, or
/// that there are none.
pub fn containers_label(cs: &Vec<ContainerSummary>) -> (r: String)
    ensures
        r@ == (if cs@.len() == 0 {
            "No containers"@
        } else {
            dec(running_count_spec(cs@)) + " running / "@ + dec(cs@.len()) + " total"@
        }),
{
    if cs.len() == 0 {
        return lit("No containers");
    }
    let running = running_count(cs);
    let mut out: Vec<char> = Vec::new();
    push_dec(&mut out, running as u64);
    let mid = chars_of(" running / ");
    out.extend_from_slice(&mid);
    push_dec(&mut out, cs.len() as u64);
    let tail = chars_of(" total");
    out.extend_from_slice(&tail);
    string_from_chars(&out)
}

/// The dashboard's line on alerts: how many are open, or none.
pub fn alerts_label(count: usize) -> (r: String)
    ensures
        r@ == (if count == 0 {
            "None"@
        } else {
            dec(count as nat) + " open"@
        }),
{
    if count == 0 {
        return lit("None");
    }
    let mut out: Vec<char> = Vec::new();
    push_dec(&mut out, count as u64);
    let tail = chars_of(" open");
    out.extend_from_slice(&tail);
    string_from_chars(&out)
}

/// The commands a container's row offers, in the order of its buttons:
/// stop and restart for a running container, start for any other; then its
/// logs, and deleting it by force.
pub open spec fn row_commands(c: ContainerSummary) -> Seq<Command> {
    let tail = seq![
        Command::DockerContainerLogs { id: c.id },
        Command::DockerRemoveContainer { id: c.id, force: true },
    ];
    if c.state@ == "running"@ {
        seq![Command::DockerStop { id: c.id }, Command::DockerRestart { id: c.id }] + tail
    } else {
        seq![Command::DockerStart { id: c.id }] + tail
    }
}

pub fn container_row_commands(c: &ContainerSummary) -> (r: Vec<Command>)
    ensures
        r@ == row_commands(*c),
{
    let st = chars_of(c.state.as_str());
    let mut r: Vec<Command> = Vec::new();
    if chars_eq_str(&st, "running") {
        r.push(Command::DockerStop { id: c.id.clone() });
        r.push(Command::DockerRestart { id: c.id.clone() });
    } else {
        r.push(Command::DockerStart { id: c.id.clone() });
    }
    r.push(Command::DockerContainerLogs { id: c.id.clone() });
    r.push(Command::DockerRemoveContainer { id: c.id.clone(), force: true });
    assert(r@ =~= row_commands(*c));
    r
}

/// Creating a network from the form: the name as typed and the chosen
/// driver.
pub fn create_network_command(name: String, driver: String) -> (r: Command)
    ensures
        r == (Command::DockerCreateNetwork { name, driver }),
{
    Command::DockerCreateNetwork { name, driver }
}

/// Deleting a network from its row.
pub fn remove_network_command(id: String) -> (r: Command)
    ensures
        r == (Command::DockerRemoveNetwork { id }),
{
    Command::DockerRemoveNetwork { id }
}

/// Creating a volume from the form: the name as typed and the chosen
/// driver.
pub fn create_volume_command(name: String, driver: String) -> (r: Command)
    ensures
        r == (Command::DockerCreateVolume { name, driver: Some(driver) }),
{
    Command::DockerCreateVolume { name, driver: Some(driver) }
}

/// Deleting a volume from its row, without force.
pub fn remove_volume_command(name: String) -> (r: Command)
    ensures
        r == (Command::DockerRemoveVolume { name, force: false }),
{
    Command::DockerRemoveVolume { name, force: false }
}

} // verus!
