//! The text of each statement, named after the operation that sends it.

use vstd::prelude::*;

verus! {

pub const DELETE_FROM_WORKSPACE: &'static str = "DELETE FROM public.af_workspace where workspace_id = $1";

pub const INSERT_USER_WORKSPACE: &'static str = "INSERT INTO public.af_workspace (owner_uid, workspace_name)
VALUES ((SELECT uid FROM public.af_user WHERE uuid = $1), $2)
RETURNING
  workspace_id,
  database_storage_id,
  owner_uid,
  (SELECT name FROM public.af_user WHERE uid = owner_uid) AS owner_name,
  created_at,
  workspace_type,
  deleted_at,
  workspace_name,
  icon
;";

pub const RENAME_WORKSPACE: &'static str = "UPDATE public.af_workspace
SET workspace_name = $1
WHERE workspace_id = $2";

pub const CHANGE_WORKSPACE_ICON: &'static str = "UPDATE public.af_workspace
SET icon = $1
WHERE workspace_id = $2";

pub const SELECT_USER_IS_WORKSPACE_OWNER: &'static str = "SELECT EXISTS(
  SELECT 1
  FROM public.af_workspace_member
    JOIN af_roles ON af_workspace_member.role_id = af_roles.id
  WHERE workspace_id = $1
  AND af_workspace_member.uid = (
    SELECT uid FROM public.af_user WHERE uuid = $2
  )
  AND af_roles.name = 'Owner'
) AS \"exists\";";

pub const SELECT_USER_IS_COLLAB_PUBLISHER_FOR_ALL_VIEWS: &'static str = "SELECT COUNT(*)
FROM af_published_collab
WHERE workspace_id = $1
  AND view_id = ANY($2)
  AND published_by = (SELECT uid FROM af_user WHERE uuid = $3)";

pub const SELECT_USER_ROLE: &'static str = "SELECT role_id FROM af_workspace_member
WHERE workspace_id = $1 AND uid = $2";

pub const SELECT_USER_CAN_EDIT_COLLAB: &'static str = "WITH workspace_check AS (
    SELECT EXISTS(
        SELECT 1
        FROM af_workspace_member
        WHERE af_workspace_member.uid = (SELECT uid FROM af_user WHERE uuid = $1) AND
        af_workspace_member.workspace_id = $3
    ) AS \"workspace_exists\"
),
collab_check AS (
    SELECT EXISTS(
        SELECT 1
        FROM af_collab_member
        WHERE oid = $2
    ) AS \"collab_exists\"
)
SELECT
    NOT collab_check.collab_exists OR (
        workspace_check.workspace_exists AND
        EXISTS(
            SELECT 1
            FROM af_collab_member
            JOIN af_permissions ON af_collab_member.permission_id = af_permissions.id
            WHERE
                af_collab_member.uid = (SELECT uid FROM af_user WHERE uuid = $1) AND
                af_collab_member.oid = $2 AND
                af_permissions.access_level > 20
        )
    ) AS \"permission_check\"
FROM workspace_check, collab_check;";

pub const UPSERT_WORKSPACE_MEMBER_WITH_TXN: &'static str = "INSERT INTO public.af_workspace_member (workspace_id, uid, role_id)
SELECT $1, af_user.uid, $3
FROM public.af_user
WHERE
  af_user.email = $2
ON CONFLICT (workspace_id, uid)
DO NOTHING;";

pub const INSERT_WORKSPACE_INVITATION: &'static str = "INSERT INTO public.af_workspace_invitation (
    id,
    workspace_id,
    inviter,
    invitee_email,
    role_id
)
VALUES (
  $1,
  $2,
  (SELECT uid FROM public.af_user WHERE uuid = $3),
  $4,
  $5
)";

pub const UPDATE_WORKSPACE_INVITATION_SET_STATUS_ACCEPTED: &'static str = "UPDATE public.af_workspace_invitation
SET status = 1
WHERE invitee_email = (SELECT email FROM public.af_user WHERE uuid = $1)
  AND id = $2
  AND status = 0";

pub const GET_INVITATION_BY_ID: &'static str = "SELECT
    workspace_id,
    inviter AS inviter_uid,
    (SELECT uid FROM public.af_user WHERE email = invitee_email) AS invitee_uid,
    status,
    role_id AS role
FROM
public.af_workspace_invitation
WHERE id = $1";

pub const SELECT_WORKSPACE_INVITATIONS_FOR_USER: &'static str = "SELECT
  id AS invite_id,
  workspace_id,
  (SELECT workspace_name FROM public.af_workspace WHERE workspace_id = af_workspace_invitation.workspace_id),
  (SELECT email FROM public.af_user WHERE uid = af_workspace_invitation.inviter) AS inviter_email,
  (SELECT name FROM public.af_user WHERE uid = af_workspace_invitation.inviter) AS inviter_name,
  status,
  updated_at
FROM
  public.af_workspace_invitation
WHERE af_workspace_invitation.invitee_email = (SELECT email FROM public.af_user WHERE uuid = $1)
AND ($2::SMALLINT IS NULL OR status = $2)";

pub const UPSERT_WORKSPACE_MEMBER: &'static str = "UPDATE af_workspace_member
SET
    role_id = $1
WHERE workspace_id = $2 AND uid = (
    SELECT uid FROM af_user WHERE email = $3
)";

pub const SELECT_IS_WORKSPACE_OWNER_BY_EMAIL: &'static str = "SELECT EXISTS (
  SELECT 1
  FROM public.af_workspace
  WHERE
      workspace_id = $1
      AND owner_uid = (
          SELECT uid FROM public.af_user WHERE email = $2
      )
 ) AS \"is_owner\";";

pub const DELETE_WORKSPACE_MEMBERS: &'static str = "DELETE FROM public.af_workspace_member
WHERE
workspace_id = $1
AND uid = (
    SELECT uid FROM public.af_user WHERE email = $2
)
AND uid <> (
    SELECT owner_uid FROM public.af_workspace WHERE workspace_id = $1
);";

pub const SELECT_WORKSPACE_MEMBER_PERM_STREAM: &'static str = "SELECT uid, role_id as role, workspace_id FROM af_workspace_member";

pub const SELECT_WORKSPACE_MEMBER_LIST: &'static str = "SELECT af_user.uid, af_user.name, af_user.email,
af_workspace_member.role_id AS role
FROM public.af_workspace_member
    JOIN public.af_user ON af_workspace_member.uid = af_user.uid
WHERE af_workspace_member.workspace_id = $1
ORDER BY af_workspace_member.created_at ASC;";

pub const SELECT_WORKSPACE_MEMBER: &'static str = "SELECT af_user.uid, af_user.name, af_user.email, af_workspace_member.role_id AS role
FROM public.af_workspace_member
  JOIN public.af_user ON af_workspace_member.uid = af_user.uid
WHERE af_workspace_member.workspace_id = $1
AND af_workspace_member.uid = $2";

pub const SELECT_USER_PROFILE: &'static str = "SELECT *
FROM public.af_user_profile_view WHERE uuid = $1";

pub const SELECT_WORKSPACE: &'static str = "SELECT
  workspace_id,
  database_storage_id,
  owner_uid,
  (SELECT name FROM public.af_user WHERE uid = owner_uid) AS owner_name,
  created_at,
  workspace_type,
  deleted_at,
  workspace_name,
  icon
FROM public.af_workspace WHERE workspace_id = $1";

pub const UPDATE_UPDATED_AT_OF_WORKSPACE: &'static str = "UPDATE af_workspace_member
SET updated_at = CURRENT_TIMESTAMP
WHERE uid = (SELECT uid FROM public.af_user WHERE uuid = $1) AND workspace_id = $2;";

pub const SELECT_ALL_USER_WORKSPACES: &'static str = "SELECT
  w.workspace_id,
  w.database_storage_id,
  w.owner_uid,
  (SELECT name FROM public.af_user WHERE uid = w.owner_uid) AS owner_name,
  w.created_at,
  w.workspace_type,
  w.deleted_at,
  w.workspace_name,
  w.icon
FROM af_workspace w
JOIN af_workspace_member wm ON w.workspace_id = wm.workspace_id
WHERE wm.uid = (
   SELECT uid FROM public.af_user WHERE uuid = $1
);";

pub const SELECT_PERMISSION: &'static str = "SELECT * FROM public.af_permissions WHERE id = $1";

pub const SELECT_PERMISSION_FROM_ROLE_ID: &'static str = "SELECT p.id, p.name, p.access_level, p.description FROM af_permissions p
JOIN af_role_permissions rp ON p.id = rp.permission_id
WHERE rp.role_id = $1";

pub const SELECT_WORKSPACE_TOTAL_COLLAB_BYTES: &'static str = "SELECT SUM(len) FROM af_collab WHERE workspace_id = $1";

pub const SELECT_WORKSPACE_NAME_FROM_WORKSPACE_ID: &'static str = "SELECT workspace_name
FROM public.af_workspace
WHERE workspace_id = $1";

pub const SELECT_WORKSPACE_MEMBER_COUNT_FROM_WORKSPACE_ID: &'static str = "SELECT COUNT(*)
FROM public.af_workspace_member
WHERE workspace_id = $1";

pub const SELECT_WORKSPACE_PENDING_INVITATIONS: &'static str = "SELECT id, invitee_email
FROM public.af_workspace_invitation
WHERE workspace_id = $1
AND status = 0";

pub const IS_WORKSPACE_EXIST: &'static str = "SELECT EXISTS(
  SELECT 1
  FROM af_workspace
  WHERE workspace_id = $1
) AS user_exists;";

pub const SELECT_WORKSPACE_SETTINGS: &'static str = "SElECT settings FROM af_workspace WHERE workspace_id = $1";

pub const UPSERT_WORKSPACE_SETTINGS: &'static str = "UPDATE af_workspace SET settings = $1 WHERE workspace_id = $2";

pub const SELECT_WORKSPACE_PUBLISH_NAMESPACE_EXISTS: &'static str = "SELECT EXISTS(
  SELECT 1
  FROM af_workspace
  WHERE workspace_id = $1
    AND publish_namespace = $2
)";

pub const UPDATE_WORKSPACE_PUBLISH_NAMESPACE: &'static str = "UPDATE af_workspace
SET publish_namespace = $1
WHERE workspace_id = $2";

pub const SELECT_WORKSPACE_PUBLISH_NAMESPACE: &'static str = "SELECT publish_namespace
FROM af_workspace
WHERE workspace_id = $1";

pub const INSERT_OR_REPLACE_PUBLISH_COLLAB_METAS: &'static str = "INSERT INTO af_published_collab (workspace_id, view_id, publish_name, published_by, metadata, blob)
SELECT * FROM UNNEST(
  (SELECT array_agg((SELECT $1::uuid)) FROM generate_series(1, $7))::uuid[],
  $2::uuid[],
  $3::text[],
  (SELECT array_agg((SELECT uid FROM af_user WHERE uuid = $4)) FROM generate_series(1, $7))::bigint[],
  $5::jsonb[],
  $6::bytea[]
)
ON CONFLICT (workspace_id, view_id) DO UPDATE
SET metadata = EXCLUDED.metadata";

pub const SELECT_PUBLISH_COLLAB_META: &'static str = "SELECT metadata
FROM af_published_collab
WHERE workspace_id = (SELECT workspace_id FROM af_workspace WHERE publish_namespace = $1)
  AND publish_name = $2";

pub const DELETE_PUBLISHED_COLLABS: &'static str = "DELETE FROM af_published_collab
WHERE workspace_id = $1
  AND view_id = ANY($2)";

pub const SELECT_PUBLISHED_COLLAB_BLOB: &'static str = "SELECT blob
FROM af_published_collab
WHERE workspace_id = (SELECT workspace_id FROM af_workspace WHERE publish_namespace = $1)
AND publish_name = $2";

pub const SELECT_PUBLISHED_COLLAB_INFO: &'static str = "SELECT
  (SELECT publish_namespace FROM af_workspace aw WHERE aw.workspace_id = apc.workspace_id) AS namespace,
  publish_name,
  view_id
FROM af_published_collab apc
WHERE view_id = $1";

} // verus!
