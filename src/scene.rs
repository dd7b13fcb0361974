//! Scene objects of a room and the scene description file: newline-ended
//! lines, each object a header line followed by two lines per component.

use vstd::prelude::*;
use crate::json::{
    json_string, decimal, tenths_text, push_json_string, push_decimal, push_tenths,
};

verus! {

/// A payload attached to a scene object: a type name and its JSON data.
pub struct Component {
    pub kind: String,
    pub data: String,
}

/// A positioned object of a room. Coordinates are in tenths of a unit.
pub struct SceneObject {
    /// Always empty in emitted files: the engine assigns identity on load.
    pub guid: String,
    pub type_id: u32,
    pub x_tenths: i64,
    pub y_tenths: i64,
    /// Rotation quaternion `(x, y, z, w)`, in tenths.
    pub rotation_tenths: [i64; 4],
    pub components: Vec<Component>,
}

/// The header line of an object, which counts its components.
pub open spec fn header_json(o: SceneObject) -> Seq<char> {
    let q = o.rotation_tenths@;
    "{\"guid\":"@ + json_string(o.guid@)
        + ",\"id\":"@ + decimal(o.type_id as nat)
        + ",\"position\":{\"x\":"@ + tenths_text(o.x_tenths as int)
        + ",\"y\":"@ + tenths_text(o.y_tenths as int)
        + "},\"rotation\":{\"x\":"@ + tenths_text(q[0] as int)
        + ",\"y\":"@ + tenths_text(q[1] as int)
        + ",\"z\":"@ + tenths_text(q[2] as int)
        + ",\"w\":"@ + tenths_text(q[3] as int)
        + "},\"additionalComponentCount\":"@ + decimal(o.components@.len())
        + "}"@
}

/// Two lines per component: its type name, then its data.
pub open spec fn component_lines(cs: Seq<Component>) -> Seq<Seq<char>>
    decreases cs.len(),
{
    if cs.len() == 0 {
        Seq::empty()
    } else {
        component_lines(cs.drop_last()) + seq![cs.last().kind@, cs.last().data@]
    }
}

/// The lines of one object.
pub open spec fn object_lines(o: SceneObject) -> Seq<Seq<char>> {
    seq![header_json(o)] + component_lines(o.components@)
}

/// The lines of all objects, in their order.
pub open spec fn scene_lines(objs: Seq<SceneObject>) -> Seq<Seq<char>>
    decreases objs.len(),
{
    if objs.len() == 0 {
        Seq::empty()
    } else {
        scene_lines(objs.drop_last()) + object_lines(objs.last())
    }
}

/// Lines joined into a file, each ended by a newline.
pub open spec fn lines_text(lines: Seq<Seq<char>>) -> Seq<char>
    decreases lines.len(),
{
    if lines.len() == 0 {
        Seq::empty()
    } else {
        lines_text(lines.drop_last()) + lines.last() + seq!['\n']
    }
}

/// The scene description file of the objects.
pub open spec fn scene_text(objs: Seq<SceneObject>) -> Seq<char> {
    lines_text(scene_lines(objs))
}

proof fn lemma_lines_text_push(lines: Seq<Seq<char>>, l: Seq<char>)
    ensures
        lines_text(lines.push(l)) == lines_text(lines) + l + seq!['\n'],
{
    assert(lines.push(l).drop_last() =~= lines);
}

fn push_line(out: &mut String, line: &str)
    ensures
        final(out)@ == old(out)@ + line@ + seq!['\n'],
{
    out.append(line);
    out.append("\n");
    proof {
        reveal_strlit("\n");
    }
}

impl SceneObject {
    /// The header line of the object, without its newline.
    pub fn header(&self) -> (r: String)
        ensures
            r@ == header_json(*self),
    {
        let mut out = String::new();
        out.append("{\"guid\":");
        push_json_string(&mut out, self.guid.as_str());
        out.append(",\"id\":");
        push_decimal(&mut out, self.type_id as u64);
        out.append(",\"position\":{\"x\":");
        push_tenths(&mut out, self.x_tenths);
        out.append(",\"y\":");
        push_tenths(&mut out, self.y_tenths);
        out.append("},\"rotation\":{\"x\":");
        push_tenths(&mut out, self.rotation_tenths[0]);
        out.append(",\"y\":");
        push_tenths(&mut out, self.rotation_tenths[1]);
        out.append(",\"z\":");
        push_tenths(&mut out, self.rotation_tenths[2]);
        out.append(",\"w\":");
        push_tenths(&mut out, self.rotation_tenths[3]);
        out.append("},\"additionalComponentCount\":");
        push_decimal(&mut out, self.components.len() as u64);
        out.append("}");
        assert(out@ =~= header_json(*self));
        out
    }
}

/// The scene description file of `objs`: objects in their order, each a
/// header line, then for each component its type name and its data, each
/// line ended by a newline.
pub fn encode_scene(objs: &Vec<SceneObject>) -> (r: String)
    ensures
        r@ == scene_text(objs@),
{
    let mut out = String::new();
    let mut i: usize = 0;
    while i < objs.len()
        invariant
            i <= objs.len(),
            out@ == lines_text(scene_lines(objs@.take(i as int))),
        decreases objs.len() - i,
    {
        let o = &objs[i];
        let h = o.header();
        push_line(&mut out, h.as_str());
        let ghost done = scene_lines(objs@.take(i as int));
        proof {
            lemma_lines_text_push(done, header_json(*o));
            assert(component_lines(o.components@.take(0)) =~= Seq::<Seq<char>>::empty());
            assert(done.push(header_json(*o)) =~= done + seq![header_json(*o)]
                + component_lines(o.components@.take(0)));
        }
        let mut j: usize = 0;
        while j < o.components.len()
            invariant
                i < objs.len(),
                o == &objs[i as int],
                j <= o.components.len(),
                done == scene_lines(objs@.take(i as int)),
                out@ == lines_text(done + seq![header_json(*o)]
                    + component_lines(o.components@.take(j as int))),
            decreases o.components.len() - j,
        {
            let c = &o.components[j];
            let ghost before = done + seq![header_json(*o)]
                + component_lines(o.components@.take(j as int));
            push_line(&mut out, c.kind.as_str());
            push_line(&mut out, c.data.as_str());
            proof {
                lemma_lines_text_push(before, c.kind@);
                lemma_lines_text_push(before.push(c.kind@), c.data@);
                let t = o.components@.take(j as int + 1);
                assert(t.drop_last() =~= o.components@.take(j as int));
                assert(t.last() == *c);
                assert(before.push(c.kind@).push(c.data@) =~= done
                    + seq![header_json(*o)] + component_lines(t));
            }
            j = j + 1;
        }
        proof {
            assert(o.components@.take(o.components@.len() as int) =~= o.components@);
            let t = objs@.take(i as int + 1);
            assert(t.drop_last() =~= objs@.take(i as int));
            assert(t.last() == *o);
            assert(scene_lines(t) =~= done + seq![header_json(*o)] + component_lines(o.components@));
        }
        i = i + 1;
    }
    assert(objs@.take(objs@.len() as int) =~= objs@);
    out
}

} // verus!
