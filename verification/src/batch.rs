use vstd::prelude::*;
use crate::material::MaterialId;
use crate::mesh::MeshType;

verus! {

/// The draw commands of one frame that share a mesh and a material and
/// are therefore drawn with one instanced call.
pub struct Batch {
    pub mesh_type: MeshType,
    pub material: MaterialId,
    /// Positions of the commands in the frame's queue, in queue order.
    pub commands: Vec<usize>,
}

/// Whether command `i` takes part in the frame: it is visible and its
/// mesh has been registered.
pub open spec fn is_drawn(
    keys: Seq<(MeshType, MaterialId)>,
    visible: Seq<bool>,
    registered: Seq<MeshType>,
    i: int,
) -> bool {
    visible[i] && registered.contains(keys[i].0)
}

/// The batches are a grouping of the drawn commands by their key:
/// each drawn command stands in exactly the batch of its key, batches
/// hold only drawn commands in increasing queue order, no two batches
/// share a key, no batch is empty, and batches come in the order in
/// which their keys first appear in the queue.
pub open spec fn is_grouping(
    batches: Seq<Batch>,
    keys: Seq<(MeshType, MaterialId)>,
    visible: Seq<bool>,
    registered: Seq<MeshType>,
    upto: int,
) -> bool {
    &&& forall|j: int|
        0 <= j < batches.len() ==> #[trigger] batches[j].commands@.len() > 0
    &&& forall|j: int, a: int|
        0 <= j < batches.len() && 0 <= a < batches[j].commands@.len() ==> {
            let c = #[trigger] batches[j].commands@[a];
            &&& 0 <= c < upto
            &&& is_drawn(keys, visible, registered, c as int)
            &&& keys[c as int] == (batches[j].mesh_type, batches[j].material)
        }
    &&& forall|j: int, a: int, b: int|
        0 <= j < batches.len() && 0 <= a < b < batches[j].commands@.len()
            ==> #[trigger] batches[j].commands@[a] < #[trigger] batches[j].commands@[b]
    &&& forall|j: int, k: int|
        0 <= j < k < batches.len() ==> (#[trigger] batches[j].mesh_type, batches[j].material)
            != (#[trigger] batches[k].mesh_type, batches[k].material)
    &&& forall|j: int, k: int|
        0 <= j < k < batches.len() ==> #[trigger] batches[j].commands@[0]
            < #[trigger] batches[k].commands@[0]
    &&& forall|c: int|
        0 <= c < upto && #[trigger] is_drawn(keys, visible, registered, c) ==> exists|j: int|
            0 <= j < batches.len() && #[trigger] batches[j].commands@.contains(c as usize)
}

fn mesh_registered(registered: &Vec<MeshType>, m: MeshType) -> (b: bool)
    ensures
        b == registered@.contains(m),
{
    let mut i: usize = 0;
    while i < registered.len()
        invariant
            i <= registered.len(),
            forall|k: int| 0 <= k < i ==> registered@[k] != m,
        decreases registered.len() - i,
    {
        if registered[i] == m {
            return true;
        }
        i = i + 1;
    }
    false
}

fn find_batch(batches: &Vec<Batch>, key: (MeshType, MaterialId)) -> (r: Option<usize>)
    ensures
        match r {
            Some(j) => j < batches@.len() && (batches@[j as int].mesh_type, batches@[j as int].material) == key,
            None => forall|j: int|
                0 <= j < batches@.len() ==> (batches@[j].mesh_type, batches@[j].material) != key,
        },
{
    let mut j: usize = 0;
    while j < batches.len()
        invariant
            j <= batches.len(),
            forall|k: int|
                0 <= k < j ==> (batches@[k].mesh_type, batches@[k].material) != key,
        decreases batches.len() - j,
    {
        if batches[j].mesh_type == key.0 && batches[j].material == key.1 {
            return Some(j);
        }
        j = j + 1;
    }
    None
}

/// Groups the frame's draw commands by mesh and material. `keys[i]` is
/// the mesh and material of command `i`, `visible[i]` whether it
/// survived frustum culling, and `registered` the meshes that have GPU
/// buffers; commands that are culled or whose mesh is not registered
/// are left out.
pub fn prepare_batches(
    keys: &Vec<(MeshType, MaterialId)>,
    visible: &Vec<bool>,
    registered: &Vec<MeshType>,
) -> (batches: Vec<Batch>)
    requires
        keys@.len() == visible@.len(),
    ensures
        is_grouping(batches@, keys@, visible@, registered@, keys@.len() as int),
{
    let mut batches: Vec<Batch> = Vec::new();
    let n = keys.len();
    let mut i: usize = 0;
    while i < n
        invariant
            n == keys@.len(),
            n == visible@.len(),
            i <= n,
            is_grouping(batches@, keys@, visible@, registered@, i as int),
        decreases n - i,
    {
        let key = keys[i];
        if visible[i] && mesh_registered(registered, key.0) {
            assert(is_drawn(keys@, visible@, registered@, i as int));
            match find_batch(&batches, key) {
                Some(j) => {
                    let ghost old_batches = batches@;
                    batches[j].commands.push(i);
                    assert forall|c: int|
                        0 <= c < i + 1 && #[trigger] is_drawn(keys@, visible@, registered@, c)
                        implies exists|k: int|
                        0 <= k < batches@.len() && #[trigger] batches@[k].commands@.contains(c as usize)
                    by {
                        if c == i {
                            let l = batches@[j as int].commands@.len() - 1;
                            assert(batches@[j as int].commands@[l] == i as usize);
                            assert(batches@[j as int].commands@.contains(c as usize));
                        } else {
                            let k = choose|k: int|
                                0 <= k < old_batches.len() && #[trigger] old_batches[k].commands@.contains(c as usize);
                            let a = choose|a: int| 0 <= a < old_batches[k].commands@.len() && old_batches[k].commands@[a] == c as usize;
                            assert(batches@[k].commands@[a] == c as usize);
                            assert(batches@[k].commands@.contains(c as usize));
                        }
                    }
                },
                None => {
                    let ghost old_batches = batches@;
                    let mut commands: Vec<usize> = Vec::new();
                    commands.push(i);
                    batches.push(Batch { mesh_type: key.0, material: key.1, commands });
                    assert forall|c: int|
                        0 <= c < i + 1 && #[trigger] is_drawn(keys@, visible@, registered@, c)
                        implies exists|k: int|
                        0 <= k < batches@.len() && #[trigger] batches@[k].commands@.contains(c as usize)
                    by {
                        if c == i {
                            assert(batches@[old_batches.len() as int].commands@[0] == i as usize);
                            assert(batches@[old_batches.len() as int].commands@.contains(c as usize));
                        } else {
                            let k = choose|k: int|
                                0 <= k < old_batches.len() && #[trigger] old_batches[k].commands@.contains(c as usize);
                            assert(batches@[k] == old_batches[k]);
                            assert(batches@[k].commands@.contains(c as usize));
                        }
                    }
                },
            }
        }
        i = i + 1;
    }
    batches
}

/// Each drawn command is drawn exactly once: exactly one batch holds it,
/// once, and that batch has the command's mesh and material. Commands
/// that are not drawn are in no batch.
pub proof fn law_each_drawn_command_in_one_batch(
    batches: Seq<Batch>,
    keys: Seq<(MeshType, MaterialId)>,
    visible: Seq<bool>,
    registered: Seq<MeshType>,
    c: usize,
)
    requires
        is_grouping(batches, keys, visible, registered, keys.len() as int),
        0 <= c < keys.len(),
    ensures
        is_drawn(keys, visible, registered, c as int) ==> exists|j: int|
            0 <= j < batches.len() && #[trigger] batches[j].commands@.contains(c)
            && keys[c as int] == (batches[j].mesh_type, batches[j].material)
            && forall|k: int| 0 <= k < batches.len() && k != j ==> !(#[trigger] batches[k].commands@.contains(c)),
        !is_drawn(keys, visible, registered, c as int) ==> forall|j: int|
            0 <= j < batches.len() ==> !(#[trigger] batches[j].commands@.contains(c)),
        forall|j: int, a: int, b: int|
            0 <= j < batches.len() && 0 <= a < batches[j].commands@.len() && 0 <= b < batches[j].commands@.len()
            && batches[j].commands@[a] == c && batches[j].commands@[b] == c ==> a == b,
{
    if is_drawn(keys, visible, registered, c as int) {
        let j = choose|j: int| 0 <= j < batches.len() && #[trigger] batches[j].commands@.contains(c);
        let a = choose|a: int| 0 <= a < batches[j].commands@.len() && batches[j].commands@[a] == c;
        assert(keys[batches[j].commands@[a] as int] == (batches[j].mesh_type, batches[j].material));
        assert forall|k: int| 0 <= k < batches.len() && k != j implies !(#[trigger] batches[k].commands@.contains(c)) by {
            if batches[k].commands@.contains(c) {
                let b = choose|b: int| 0 <= b < batches[k].commands@.len() && batches[k].commands@[b] == c;
                assert(keys[batches[k].commands@[b] as int] == (batches[k].mesh_type, batches[k].material));
                if j < k {
                    assert((batches[j].mesh_type, batches[j].material) != (batches[k].mesh_type, batches[k].material));
                } else {
                    assert((batches[k].mesh_type, batches[k].material) != (batches[j].mesh_type, batches[j].material));
                }
            }
        }
    } else {
        assert forall|j: int| 0 <= j < batches.len() implies !(#[trigger] batches[j].commands@.contains(c)) by {
            if batches[j].commands@.contains(c) {
                let a = choose|a: int| 0 <= a < batches[j].commands@.len() && batches[j].commands@[a] == c;
                assert(is_drawn(keys, visible, registered, batches[j].commands@[a] as int));
            }
        }
    }
    assert forall|j: int, a: int, b: int|
        0 <= j < batches.len() && 0 <= a < batches[j].commands@.len() && 0 <= b < batches[j].commands@.len()
        && batches[j].commands@[a] == c && batches[j].commands@[b] == c implies a == b by {
        if a < b {
            assert(batches[j].commands@[a] < batches[j].commands@[b]);
        } else if b < a {
            assert(batches[j].commands@[b] < batches[j].commands@[a]);
        }
    }
}

} // verus!
